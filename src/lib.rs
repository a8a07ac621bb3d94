//! Bootstrap of a GPU presentation surface: the decisions that take a window
//! from nothing to a ready pipeline and framebuffer set, as a verified state
//! machine over plain capability values.

pub mod caps;

pub use caps::{
    chain_extent, negotiate_chain, select_queue_family, ChainConfig, Extent, QueueFamily,
    SurfaceCaps, SurfaceFormat,
};

pub mod pipeline;

pub use pipeline::{
    plan_framebuffers, plan_pipeline, plan_render_pass, FramebufferSpec, PipelineConfig,
    RenderPassConfig, Viewport,
};

pub mod shader;

pub use shader::shader_words;

pub mod bootstrap;

pub use bootstrap::{Action, Bootstrap, BootstrapError, Event, Phase};

pub mod guarantees;
