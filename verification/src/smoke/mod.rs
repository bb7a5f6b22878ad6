pub mod config;
pub mod emitter;
