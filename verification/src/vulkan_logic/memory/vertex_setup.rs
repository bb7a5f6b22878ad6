use vstd::prelude::*;
use ash::vk;

verus! {

/// Raw value of `VK_VERTEX_INPUT_RATE_VERTEX`.
pub open spec fn vk_input_rate_vertex() -> i32 {
    0
}

/// Raw value of `VK_FORMAT_R32G32_SFLOAT`.
pub open spec fn vk_format_rg32_sfloat() -> i32 {
    103
}

/// Raw value of `VK_FORMAT_R32G32B32_SFLOAT`.
pub open spec fn vk_format_rgb32_sfloat() -> i32 {
    106
}

/// Raw value of `VK_FORMAT_R32G32B32A32_SFLOAT`.
pub open spec fn vk_format_rgba32_sfloat() -> i32 {
    109
}

/// `ash::vk::VertexInputRate::VERTEX`, read through `as_raw`; ash defines it as
/// `Self(0)`.
#[verifier::external_body]
fn input_rate_vertex_raw() -> (r: i32)
    ensures
        r == vk_input_rate_vertex(),
{
    vk::VertexInputRate::VERTEX.as_raw()
}

/// `ash::vk::Format::R32G32_SFLOAT`, read through `as_raw`; ash defines it as
/// `Self(103)`.
#[verifier::external_body]
fn format_rg32_raw() -> (r: i32)
    ensures
        r == vk_format_rg32_sfloat(),
{
    vk::Format::R32G32_SFLOAT.as_raw()
}

/// `ash::vk::Format::R32G32B32_SFLOAT`, read through `as_raw`; ash defines it as
/// `Self(106)`.
#[verifier::external_body]
fn format_rgb32_raw() -> (r: i32)
    ensures
        r == vk_format_rgb32_sfloat(),
{
    vk::Format::R32G32B32_SFLOAT.as_raw()
}

/// `ash::vk::Format::R32G32B32A32_SFLOAT`, read through `as_raw`; ash defines it
/// as `Self(109)`.
#[verifier::external_body]
fn format_rgba32_raw() -> (r: i32)
    ensures
        r == vk_format_rgba32_sfloat(),
{
    vk::Format::R32G32B32A32_SFLOAT.as_raw()
}

/// A vertex buffer binding, as the raw fields of `VkVertexInputBindingDescription`.
#[derive(Clone, Copy, Debug, PartialEq, Eq, Structural)]
pub struct VertexBinding {
    pub binding: u32,
    pub stride: u32,
    pub input_rate: i32,
}

/// A vertex attribute, as the raw fields of `VkVertexInputAttributeDescription`.
#[derive(Clone, Copy, Debug, PartialEq, Eq, Structural)]
pub struct VertexAttribute {
    pub location: u32,
    pub binding: u32,
    pub format: i32,
    pub offset: u32,
}

/// Byte offsets of the fields of the mesh vertex, in shader-location order:
/// position, color, normal, uv.
#[derive(Clone, Copy, Debug, PartialEq, Eq, Structural)]
pub struct VertexLayout {
    pub stride: u32,
    pub position: u32,
    pub color: u32,
    pub normal: u32,
    pub uv: u32,
}

/// Describes how the mesh vertex is fed to the vertex shader.
pub struct VertexSetup;

impl VertexSetup {
    /// One per-vertex binding at slot 0, as wide as the vertex.
    pub fn get_binding_description(layout: &VertexLayout) -> (r: VertexBinding)
        ensures
            r == (VertexBinding { binding: 0, stride: layout.stride, input_rate: vk_input_rate_vertex() }),
    {
        VertexBinding { binding: 0, stride: layout.stride, input_rate: input_rate_vertex_raw() }
    }

    /// The four attributes of binding 0: location 0 the position (3 floats),
    /// 1 the color (4 floats), 2 the normal (3 floats), 3 the uv (2 floats),
    /// each at the offset of its field.
    pub fn get_attribute_descriptions(layout: &VertexLayout) -> (r: [VertexAttribute; 4])
        ensures
            r@[0] == (VertexAttribute { location: 0, binding: 0, format: vk_format_rgb32_sfloat(), offset: layout.position }),
            r@[1] == (VertexAttribute { location: 1, binding: 0, format: vk_format_rgba32_sfloat(), offset: layout.color }),
            r@[2] == (VertexAttribute { location: 2, binding: 0, format: vk_format_rgb32_sfloat(), offset: layout.normal }),
            r@[3] == (VertexAttribute { location: 3, binding: 0, format: vk_format_rg32_sfloat(), offset: layout.uv }),
    {
        [
            VertexAttribute { location: 0, binding: 0, format: format_rgb32_raw(), offset: layout.position },
            VertexAttribute { location: 1, binding: 0, format: format_rgba32_raw(), offset: layout.color },
            VertexAttribute { location: 2, binding: 0, format: format_rgb32_raw(), offset: layout.normal },
            VertexAttribute { location: 3, binding: 0, format: format_rg32_raw(), offset: layout.uv },
        ]
    }
}

} // verus!
