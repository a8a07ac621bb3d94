use vstd::prelude::*;

use crate::caps::Extent;

verus! {

/// The single colour attachment of the render pass and its one subpass.
#[derive(Clone, Copy, Debug, PartialEq, Eq, Structural)]
pub struct RenderPassConfig {
    /// Format code of the colour attachment: the chain's image format.
    pub format: u32,
    pub clear_on_load: bool,
    pub store_on_finish: bool,
    pub samples: u32,
    pub depth_stencil: bool,
}

/// A viewport in whole pixels; its depth range is always `[0, 1]`.
#[derive(Clone, Copy, Debug, PartialEq, Eq, Structural)]
pub struct Viewport {
    pub x: u32,
    pub y: u32,
    pub width: u32,
    pub height: u32,
}

/// The fixed configuration of the graphics pipeline.
#[derive(Clone, Copy, Debug, PartialEq, Eq, Structural)]
pub struct PipelineConfig {
    pub viewport: Viewport,
    pub triangle_list: bool,
    pub tessellation: bool,
    pub geometry_stage: bool,
    pub multisample: bool,
    pub depth_stencil_test: bool,
    pub blending: bool,
    /// Index of the render pass subpass the pipeline draws in.
    pub subpass: u32,
}

/// One framebuffer: chain image `image` bound as the colour attachment.
#[derive(Clone, Copy, Debug, PartialEq, Eq, Structural)]
pub struct FramebufferSpec {
    pub image: usize,
    pub width: u32,
    pub height: u32,
    pub layers: u32,
}

pub open spec fn render_pass_for(format: u32) -> RenderPassConfig {
    RenderPassConfig {
        format,
        clear_on_load: true,
        store_on_finish: true,
        samples: 1,
        depth_stencil: false,
    }
}

pub open spec fn pipeline_for(extent: Extent) -> PipelineConfig {
    PipelineConfig {
        viewport: Viewport { x: 0, y: 0, width: extent.width, height: extent.height },
        triangle_list: true,
        tessellation: false,
        geometry_stage: false,
        multisample: false,
        depth_stencil_test: false,
        blending: false,
        subpass: 0,
    }
}

pub open spec fn framebuffer_for(i: int, extent: Extent) -> FramebufferSpec {
    FramebufferSpec { image: i as usize, width: extent.width, height: extent.height, layers: 1 }
}

/// One framebuffer per chain image, in chain order.
pub open spec fn framebuffers_for(count: nat, extent: Extent) -> Seq<FramebufferSpec> {
    Seq::new(count, |i: int| framebuffer_for(i, extent))
}

/// The render pass: one colour attachment in the chain's format, cleared on
/// load and stored at the end, one sample, no depth or stencil.
pub fn plan_render_pass(format: u32) -> (r: RenderPassConfig)
    ensures
        r == render_pass_for(format),
{
    RenderPassConfig {
        format,
        clear_on_load: true,
        store_on_finish: true,
        samples: 1,
        depth_stencil: false,
    }
}

/// The pipeline: a triangle list drawn through one viewport that covers
/// `(0, 0)` to `extent`, with no multisampling, depth test or blending.
pub fn plan_pipeline(extent: Extent) -> (r: PipelineConfig)
    ensures
        r == pipeline_for(extent),
        r.viewport.width == extent.width && r.viewport.height == extent.height,
{
    PipelineConfig {
        viewport: Viewport { x: 0, y: 0, width: extent.width, height: extent.height },
        triangle_list: true,
        tessellation: false,
        geometry_stage: false,
        multisample: false,
        depth_stencil_test: false,
        blending: false,
        subpass: 0,
    }
}

/// One framebuffer for each of `count` chain images of the given extent;
/// entry `i` binds image `i`.
pub fn plan_framebuffers(count: usize, extent: Extent) -> (r: Vec<FramebufferSpec>)
    ensures
        r@ == framebuffers_for(count as nat, extent),
        r@.len() == count,
        forall|i: int| 0 <= i < count ==> (#[trigger] r@[i]).image == i && r@[i].width
            == extent.width && r@[i].height == extent.height && r@[i].layers == 1,
{
    let mut r: Vec<FramebufferSpec> = Vec::new();
    let mut i: usize = 0;
    while i < count
        invariant
            i <= count,
            r@ == framebuffers_for(i as nat, extent),
        decreases count - i,
    {
        r.push(FramebufferSpec { image: i, width: extent.width, height: extent.height, layers: 1 });
        i = i + 1;
        assert(r@ =~= framebuffers_for(i as nat, extent));
    }
    r
}

} // verus!
