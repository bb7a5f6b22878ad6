pub mod context;
pub mod swapchain;
