use vstd::prelude::*;

verus! {

/// The surface limits that the swapchain sizing reads, as plain values of
/// `VkSurfaceCapabilitiesKHR`.
#[derive(Clone, Copy, Debug, PartialEq, Eq, Structural)]
pub struct SurfaceLimits {
    pub min_image_count: u32,
    /// 0 means "no limit".
    pub max_image_count: u32,
    pub min_width: u32,
    pub min_height: u32,
    pub max_width: u32,
    pub max_height: u32,
}

/// A swapchain image extent.
#[derive(Clone, Copy, Debug, PartialEq, Eq, Structural)]
pub struct Extent {
    pub width: u32,
    pub height: u32,
}

/// One image more than the surface minimum, lowered to the surface maximum
/// when there is one.
pub open spec fn image_count_spec(min: u32, max: u32) -> int {
    if max > 0 && min + 1 > max { max as int } else { min + 1 }
}

/// `v` clamped into `[lo, hi]`.
pub open spec fn clamp_spec(v: u32, lo: u32, hi: u32) -> u32 {
    if v < lo { lo } else if v > hi { hi } else { v }
}

/// The surface's extent limits are well ordered, as `clamp` needs.
pub open spec fn extent_limits_ordered(limits: SurfaceLimits) -> bool {
    limits.min_width <= limits.max_width && limits.min_height <= limits.max_height
}

/// How many images to ask the swapchain for: one more than the minimum,
/// so the renderer does not wait on the driver, unless that exceeds a
/// nonzero maximum.
pub fn image_count(limits: &SurfaceLimits) -> (r: u32)
    requires
        limits.min_image_count < u32::MAX,
    ensures
        r == image_count_spec(limits.min_image_count, limits.max_image_count),
{
    let mut image_count = limits.min_image_count + 1;
    if limits.max_image_count > 0 && image_count > limits.max_image_count {
        image_count = limits.max_image_count;
    }
    image_count
}

/// A minimized window (zero width or height) gets no new swapchain.
pub fn is_minimized(width: u32, height: u32) -> (r: bool)
    ensures
        r == (width == 0 || height == 0),
{
    width == 0 || height == 0
}

/// The extent of a recreated swapchain: the window size clamped, per
/// axis, into the surface's extent limits.
pub fn clamped_extent(width: u32, height: u32, limits: &SurfaceLimits) -> (r: Extent)
    requires
        extent_limits_ordered(*limits),
    ensures
        r.width == clamp_spec(width, limits.min_width, limits.max_width),
        r.height == clamp_spec(height, limits.min_height, limits.max_height),
{
    Extent {
        width: clamp_u32(width, limits.min_width, limits.max_width),
        height: clamp_u32(height, limits.min_height, limits.max_height),
    }
}

/// Swapchain images are shared concurrently exactly when graphics and
/// presentation use different queue families (exclusive otherwise).
pub fn uses_concurrent_sharing(graphics_family: u32, present_family: u32) -> (r: bool)
    ensures
        r == (graphics_family != present_family),
{
    graphics_family != present_family
}

/// `Ord::clamp` on `u32` (which panics unless `lo <= hi`), written out: vstd
/// specifies the trait's `Ord::clamp`, but `u32`'s own `clamp`, which a call
/// resolves to, has no specification and Verus refuses the call.
fn clamp_u32(v: u32, lo: u32, hi: u32) -> (r: u32)
    requires
        lo <= hi,
    ensures
        r == clamp_spec(v, lo, hi),
{
    if v < lo {
        lo
    } else if v > hi {
        hi
    } else {
        v
    }
}

/// The image count respects the surface: it is at least the minimum when the
/// maximum allows it, never above a nonzero maximum, and never zero.
pub proof fn lemma_image_count_within_limits(limits: SurfaceLimits)
    requires
        limits.min_image_count < u32::MAX,
    ensures
        limits.max_image_count > 0 ==> image_count_spec(limits.min_image_count, limits.max_image_count) <= limits.max_image_count,
        (limits.max_image_count == 0 || limits.min_image_count < limits.max_image_count)
            ==> image_count_spec(limits.min_image_count, limits.max_image_count) == limits.min_image_count + 1,
        limits.min_image_count <= limits.max_image_count || limits.max_image_count == 0
            ==> image_count_spec(limits.min_image_count, limits.max_image_count) >= limits.min_image_count,
        image_count_spec(limits.min_image_count, limits.max_image_count) >= 1,
{
}

/// A clamped extent lies within the surface limits, and clamping it again
/// changes nothing.
pub proof fn lemma_clamped_extent_within_limits(width: u32, height: u32, limits: SurfaceLimits)
    requires
        extent_limits_ordered(limits),
    ensures
        limits.min_width <= clamp_spec(width, limits.min_width, limits.max_width) <= limits.max_width,
        limits.min_height <= clamp_spec(height, limits.min_height, limits.max_height) <= limits.max_height,
        clamp_spec(clamp_spec(width, limits.min_width, limits.max_width), limits.min_width, limits.max_width)
            == clamp_spec(width, limits.min_width, limits.max_width),
        limits.min_width <= width <= limits.max_width ==> clamp_spec(width, limits.min_width, limits.max_width) == width,
{
}


/// The image count, stated on the limits: one more than the minimum when
/// there is no maximum or it allows that, else the maximum.
pub proof fn lemma_image_count_cases(min: u32, max: u32)
    requires
        min < u32::MAX,
    ensures
        max == 0 ==> image_count_spec(min, max) == min + 1,
        (max > 0 && min + 1 <= max) ==> image_count_spec(min, max) == min + 1,
        (max > 0 && min + 1 > max) ==> image_count_spec(min, max) == max,
{
}

/// Clamping, stated on the value: below the range gives the lower limit,
/// above it the upper limit, inside it the value itself.
pub proof fn lemma_clamp_cases(v: u32, lo: u32, hi: u32)
    requires
        lo <= hi,
    ensures
        v < lo ==> clamp_spec(v, lo, hi) == lo,
        v > hi ==> clamp_spec(v, lo, hi) == hi,
        (lo <= v && v <= hi) ==> clamp_spec(v, lo, hi) == v,
{
}

} // verus!
