pub mod config;
pub mod river_mesh;
