use vstd::prelude::*;
use ash::vk;

verus! {

/// Raw value of `VK_CULL_MODE_NONE`.
pub open spec fn vk_cull_mode_none() -> u32 {
    0
}

/// Raw value of `VK_CULL_MODE_BACK_BIT`.
pub open spec fn vk_cull_mode_back() -> u32 {
    2
}

/// Raw value of `VK_FRONT_FACE_COUNTER_CLOCKWISE`.
pub open spec fn vk_front_face_ccw() -> i32 {
    0
}

/// Raw value of `VK_FRONT_FACE_CLOCKWISE`.
pub open spec fn vk_front_face_cw() -> i32 {
    1
}

/// `ash::vk::CullModeFlags::NONE`, read through `as_raw`; ash defines it as
/// `Self(0)`.
#[verifier::external_body]
fn cull_mode_none_bits() -> (r: u32)
    ensures
        r == vk_cull_mode_none(),
{
    vk::CullModeFlags::NONE.as_raw()
}

/// `ash::vk::CullModeFlags::BACK`, read through `as_raw`; ash defines it as
/// `Self(0b10)`.
#[verifier::external_body]
fn cull_mode_back_bits() -> (r: u32)
    ensures
        r == vk_cull_mode_back(),
{
    vk::CullModeFlags::BACK.as_raw()
}

/// `ash::vk::FrontFace::CLOCKWISE`, read through `as_raw`; ash defines it as
/// `Self(1)`.
#[verifier::external_body]
fn front_face_cw_raw() -> (r: i32)
    ensures
        r == vk_front_face_cw(),
{
    vk::FrontFace::CLOCKWISE.as_raw()
}

/// `ash::vk::FrontFace::COUNTER_CLOCKWISE`, read through `as_raw`; ash defines
/// it as `Self(0)`.
#[verifier::external_body]
fn front_face_ccw_raw() -> (r: i32)
    ensures
        r == vk_front_face_ccw(),
{
    vk::FrontFace::COUNTER_CLOCKWISE.as_raw()
}

/// Intuitive boolean-based configuration for backface culling and winding order.
#[derive(Clone, Copy, Debug)]
pub struct BackfaceCullConfig {
    /// If true, culling is completely disabled (both sides render).
    pub mode_none: bool,
    /// If `mode_none` is false, determines the winding order.
    /// `true` = Clockwise (CW), `false` = Counter-Clockwise (CCW).
    pub mode_cw: bool,
}

impl Default for BackfaceCullConfig {
    /// Culling disabled and clockwise winding, so that the Y-axis flip of the
    /// projection cannot hide models.
    fn default() -> (r: Self)
        ensures
            r.mode_none,
            r.mode_cw,
    {
        Self { mode_none: true, mode_cw: true }
    }
}

impl BackfaceCullConfig {
    /// The Vulkan cull mode, as raw `VkCullModeFlags` bits: none when culling
    /// is disabled, back faces otherwise.
    pub fn get_cull_mode(&self) -> (r: u32)
        ensures
            r == if self.mode_none { vk_cull_mode_none() } else { vk_cull_mode_back() },
    {
        if self.mode_none {
            cull_mode_none_bits()
        } else {
            cull_mode_back_bits()
        }
    }

    /// The Vulkan front face, as a raw `VkFrontFace`: clockwise when `mode_cw`,
    /// counter-clockwise otherwise.
    pub fn get_front_face(&self) -> (r: i32)
        ensures
            r == if self.mode_cw { vk_front_face_cw() } else { vk_front_face_ccw() },
    {
        if self.mode_cw {
            front_face_cw_raw()
        } else {
            front_face_ccw_raw()
        }
    }
}

} // verus!
