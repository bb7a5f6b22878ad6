pub mod cull;
