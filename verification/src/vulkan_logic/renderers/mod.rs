pub mod fire_renderer;
pub mod master;
pub mod skybox_renderer;
