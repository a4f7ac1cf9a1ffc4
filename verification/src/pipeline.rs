//! The fixed render pipeline: one shader with a vertex and a fragment
//! entry point, no vertex buffers, and a rasterisation and blend state
//! that never changes after construction. Rebuilding is the only way to
//! change any parameter.

use vstd::prelude::*;

verus! {

/// How vertices are assembled into primitives.
#[derive(Clone, Copy, Debug, PartialEq, Eq)]
pub enum PrimitiveTopology {
    PointList,
    LineList,
    LineStrip,
    TriangleList,
    TriangleStrip,
}

/// Which winding order makes a triangle front-facing.
#[derive(Clone, Copy, Debug, PartialEq, Eq)]
pub enum FrontFace {
    /// Counter-clockwise.
    Ccw,
    Cw,
}

/// A side of a triangle, for culling.
#[derive(Clone, Copy, Debug, PartialEq, Eq)]
pub enum Face {
    Front,
    Back,
}

/// How a triangle's interior is rasterised.
#[derive(Clone, Copy, Debug, PartialEq, Eq)]
pub enum PolygonMode {
    Fill,
    Line,
    Point,
}

/// How a fragment's color is combined with the color already in the
/// target.
#[derive(Clone, Copy, Debug, PartialEq, Eq)]
pub enum BlendMode {
    /// The new color replaces the old one outright; no compositing math.
    Replace,
    AlphaBlending,
}

/// Every parameter of the render pipeline. Immutable after construction
/// and bound to the one color target, whose format must match the
/// presentation surface's.
#[derive(Clone, Copy, Debug, PartialEq, Eq)]
pub struct PipelineSpec {
    pub topology: PrimitiveTopology,
    pub front_face: FrontFace,
    pub cull_mode: Option<Face>,
    pub polygon_mode: PolygonMode,
    pub unclipped_depth: bool,
    pub conservative_raster: bool,
    /// Whether a depth/stencil buffer is attached. This harness never
    /// attaches one.
    pub has_depth_stencil: bool,
    pub sample_count: u32,
    /// All samples active in the multisample mask.
    pub sample_mask_all: bool,
    pub alpha_to_coverage: bool,
    pub blend: BlendMode,
    /// All four color channels are written.
    pub writes_all_channels: bool,
    /// The color target's pixel format; must equal the surface's.
    pub target_format: u32,
    /// The triangle is synthesized in the vertex shader, so no vertex
    /// buffer layout exists.
    pub vertex_buffer_count: usize,
}

impl PipelineSpec {
    /// The one pipeline this harness builds, for a given surface format:
    /// triangle-list topology, counter-clockwise front faces, back faces
    /// culled, filled polygons, no depth/stencil, a single sample, and
    /// one color target in the surface's format written in full with
    /// replace blending.
    pub open spec fn build_spec(format: u32) -> PipelineSpec {
        PipelineSpec {
            topology: PrimitiveTopology::TriangleList,
            front_face: FrontFace::Ccw,
            cull_mode: Some(Face::Back),
            polygon_mode: PolygonMode::Fill,
            unclipped_depth: false,
            conservative_raster: false,
            has_depth_stencil: false,
            sample_count: 1,
            sample_mask_all: true,
            alpha_to_coverage: false,
            blend: BlendMode::Replace,
            writes_all_channels: true,
            target_format: format,
            vertex_buffer_count: 0,
        }
    }

    /// Pure construction of the fixed pipeline for a surface format.
    pub fn build(format: u32) -> (p: PipelineSpec)
        ensures
            p == PipelineSpec::build_spec(format),
            p.target_format == format,
    {
        PipelineSpec {
            topology: PrimitiveTopology::TriangleList,
            front_face: FrontFace::Ccw,
            cull_mode: Some(Face::Back),
            polygon_mode: PolygonMode::Fill,
            unclipped_depth: false,
            conservative_raster: false,
            has_depth_stencil: false,
            sample_count: 1,
            sample_mask_all: true,
            alpha_to_coverage: false,
            blend: BlendMode::Replace,
            writes_all_channels: true,
            target_format: format,
            vertex_buffer_count: 0,
        }
    }
}

/// The shader's vertex-stage entry point. The vertex shader synthesizes
/// the triangle from the built-in vertex index; it reads no attributes.
pub fn vertex_entry_point() -> (r: &'static str)
    ensures
        r@ == "vs_main"@,
{
    "vs_main"
}

/// The shader's fragment-stage entry point: outputs one color.
pub fn fragment_entry_point() -> (r: &'static str)
    ensures
        r@ == "fs_main"@,
{
    "fs_main"
}

} // verus!
