pub mod config;
pub mod vk_core;
pub mod memory;
pub mod renderers;
