//! Everything needed to draw the one frame: surface configuration, pipeline, draw call.
use vstd::prelude::*;
use crate::geometry::{DrawCall, draw_call, triangle_draw, triangle_words, WORDS_PER_VERTEX};
use crate::pipeline::{PipelinePlan, fixed_pipeline, pipeline_plan};
use crate::surface::{SurfaceCaps, SurfacePlan, planned_surface, plan_surface};

verus! {

/// The plan of the frame.
#[derive(Clone, Copy, Debug)]
pub struct FramePlan {
    pub surface: SurfacePlan,
    pub pipeline: PipelinePlan,
    pub draw: DrawCall,
}

/// The frame drawn for usable capabilities and a canvas of the given size.
pub open spec fn planned_frame(caps: SurfaceCaps, width: u32, height: u32) -> FramePlan {
    let surface = planned_surface(caps, width, height);
    FramePlan { surface, pipeline: fixed_pipeline(surface.format), draw: triangle_draw() }
}

/// The plan of the frame for a canvas of `width` by `height` pixels.
pub fn plan_frame(caps: &SurfaceCaps, width: u32, height: u32) -> (r: FramePlan)
    requires
        caps.usable(),
    ensures
        r == planned_frame(*caps, width, height),
{
    let surface = plan_surface(caps, width, height);
    FramePlan { surface, pipeline: pipeline_plan(surface.format), draw: draw_call() }
}

/// Whatever the canvas size, the vertex data holds exactly three vertices and the
/// frame draws exactly those three, once.
pub proof fn lemma_draw_is_fixed(caps: SurfaceCaps, width: u32, height: u32)
    ensures
        planned_frame(caps, width, height).draw.vertex_count == 3,
        planned_frame(caps, width, height).draw.instance_count == 1,
        planned_frame(caps, width, height).draw.first_vertex == 0,
        triangle_words().len() == 3 * WORDS_PER_VERTEX,
{
}

/// Changing the canvas size changes the configured width and height and nothing
/// else: not the format, present mode, alpha mode, latency, usage or view formats, not
/// the pipeline, not the draw call.
pub proof fn lemma_resize_changes_only_size(caps: SurfaceCaps, w1: u32, h1: u32, w2: u32, h2: u32)
    ensures
        ({
            let a = planned_frame(caps, w1, h1);
            let b = planned_frame(caps, w2, h2);
            &&& a.surface.width == w1 && a.surface.height == h1
            &&& b.surface.width == w2 && b.surface.height == h2
            &&& a.surface.format == b.surface.format
            &&& a.surface.present_mode == b.surface.present_mode
            &&& a.surface.alpha_mode == b.surface.alpha_mode
            &&& a.surface.frame_latency == b.surface.frame_latency
            &&& a.surface.render_attachment == b.surface.render_attachment
            &&& a.surface.extra_view_formats == b.surface.extra_view_formats
            &&& a.pipeline == b.pipeline
            &&& a.draw == b.draw
        }),
{
}

} // verus!
