pub mod gpu_buffers;
pub mod vertex_setup;
