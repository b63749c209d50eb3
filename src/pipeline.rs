//! The fixed render pipeline that draws the triangle.
use vstd::prelude::*;
use crate::geometry::{VertexLayout, triangle_layout, vertex_layout};

verus! {

/// Every sample of a pixel is written.
pub const ALL_SAMPLES: u64 = 0xFFFF_FFFF_FFFF_FFFF;

/// The state of the render pipeline. Everything but the target format is fixed:
/// vertex data as a triangle list with no strip index format, counter-clockwise front
/// faces with back faces culled, solid fill, depth clipped and rasterization not
/// conservative; no depth or stencil, one sample per pixel with every sample written
/// and no alpha-to-coverage; one color target, the fragment color replacing what it
/// held in every channel; no multiview and no pipeline cache.
#[derive(Clone, Copy, Debug)]
pub struct PipelinePlan {
    pub target_format: wgpu::TextureFormat,
    pub vertex_entry: &'static str,
    pub fragment_entry: &'static str,
    pub vertex_layout: VertexLayout,
    pub triangle_list: bool,
    pub strip_index_format: bool,
    pub front_face_ccw: bool,
    pub cull_back_faces: bool,
    pub solid_fill: bool,
    pub unclipped_depth: bool,
    pub conservative: bool,
    pub depth_stencil: bool,
    pub sample_count: u32,
    pub sample_mask: u64,
    pub alpha_to_coverage: bool,
    pub blend_replace: bool,
    pub write_all_channels: bool,
    pub multiview: bool,
    pub pipeline_cache: bool,
}

/// The pipeline for a surface of the given format.
pub open spec fn fixed_pipeline(format: wgpu::TextureFormat) -> PipelinePlan {
    PipelinePlan {
        target_format: format,
        vertex_entry: "vs_main",
        fragment_entry: "fs_main",
        vertex_layout: triangle_layout(),
        triangle_list: true,
        strip_index_format: false,
        front_face_ccw: true,
        cull_back_faces: true,
        solid_fill: true,
        unclipped_depth: false,
        conservative: false,
        depth_stencil: false,
        sample_count: 1,
        sample_mask: ALL_SAMPLES,
        alpha_to_coverage: false,
        blend_replace: true,
        write_all_channels: true,
        multiview: false,
        pipeline_cache: false,
    }
}

/// The pipeline state for drawing into a surface of format `format`.
pub fn pipeline_plan(format: wgpu::TextureFormat) -> (r: PipelinePlan)
    ensures
        r == fixed_pipeline(format),
{
    PipelinePlan {
        target_format: format,
        vertex_entry: "vs_main",
        fragment_entry: "fs_main",
        vertex_layout: vertex_layout(),
        triangle_list: true,
        strip_index_format: false,
        front_face_ccw: true,
        cull_back_faces: true,
        solid_fill: true,
        unclipped_depth: false,
        conservative: false,
        depth_stencil: false,
        sample_count: 1,
        sample_mask: ALL_SAMPLES,
        alpha_to_coverage: false,
        blend_replace: true,
        write_all_channels: true,
        multiview: false,
        pipeline_cache: false,
    }
}

} // verus!
