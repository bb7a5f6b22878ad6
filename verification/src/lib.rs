//! Verified core of the D3 renderer: the deterministic particle random stream,
//! river mesh topology, swapchain and buffer sizing rules, queue-family search,
//! per-frame draw planning and the acquire/present decisions of the frame loop.

pub mod rng;
pub mod water;
pub mod vulkan_logic;
pub mod smoke;
pub mod weather;
