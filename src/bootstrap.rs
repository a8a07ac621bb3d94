use vstd::prelude::*;

use crate::caps::{
    first_suitable, negotiate_chain, negotiated, select_queue_family, ChainConfig, Extent,
    QueueFamily, SurfaceCaps, SurfaceFormat,
};
use crate::pipeline::{
    framebuffers_for, pipeline_for, plan_framebuffers, plan_pipeline, plan_render_pass,
    render_pass_for, FramebufferSpec, PipelineConfig, RenderPassConfig, Viewport,
};
use crate::shader::{shader_words, well_framed, words_of};

verus! {

/// Why a bootstrap ended without a usable pipeline.
#[derive(Clone, Copy, Debug, PartialEq, Eq, Structural)]
pub enum BootstrapError {
    BackendUnavailable,
    NoDeviceAvailable,
    SurfaceCreationError,
    NoSuitableQueueFamily,
    DeviceCreationError,
    ChainCreationError,
    ShaderCompilationError,
    ShaderLoadError,
    RenderPassError,
    PipelineCreationError,
    FramebufferCreationError,
}

/// How far the bootstrap has come. Each phase but the last two waits for the
/// outcome of one outside step.
#[derive(Clone, Copy, Debug, PartialEq, Eq, Structural)]
pub enum Phase {
    /// Waits for the backend context and its device count.
    Uninitialized,
    /// Waits for the window to be bound as a surface.
    ContextReady,
    /// Waits for the queue families of the first device.
    SurfaceBound,
    /// Waits for the logical device and its queue.
    FamilySelected,
    /// Waits for the surface's capabilities.
    DeviceReady,
    /// Waits for the presentation chain.
    ChainNegotiated,
    /// Waits for the shader stages.
    ChainReady,
    /// Waits for the render pass.
    ShadersReady,
    /// Waits for the graphics pipeline.
    RenderPassReady,
    /// Waits for the framebuffers.
    PipelineReady,
    /// Everything is built.
    Ready,
    /// A step failed; the bootstrap is over.
    Failed(BootstrapError),
}

/// The outcome of the outside step that the bootstrap asked for.
#[derive(Clone, Debug)]
pub enum Event {
    ContextCreated { device_count: usize },
    SurfaceBound,
    /// The queue families of the first device, with their present support
    /// against the bound surface, in enumeration order.
    QueueFamilies(Vec<QueueFamily>),
    DeviceCreated,
    SurfaceCapabilities(SurfaceCaps),
    ChainCreated { image_count: usize },
    ShadersLoaded,
    RenderPassBuilt,
    PipelineBuilt,
    FramebuffersBuilt,
    StepFailed,
}

/// The outside step the bootstrap asks for next.
#[derive(Clone, Debug)]
pub enum Action {
    CreateContext,
    BindSurface,
    QueryQueueFamilies { device: usize },
    /// Create the logical device with one queue of `queue_family`, with the
    /// presentation extension enabled when `presentation` holds.
    CreateDevice { device: usize, queue_family: usize, presentation: bool },
    QuerySurfaceCapabilities { device: usize },
    CreateChain(ChainConfig),
    LoadShaders { vertex: Vec<u32>, fragment: Vec<u32> },
    BuildRenderPass(RenderPassConfig),
    BuildPipeline(PipelineConfig),
    BuildFramebuffers(Vec<FramebufferSpec>),
    /// The bootstrap is done: hand the handles over.
    Finish,
    /// Release what was built, newest first, and report the error.
    Abort(BootstrapError),
}

/// The device this bootstrap uses: the first one enumerated.
pub const SELECTED_DEVICE: usize = 0;

/// What a bootstrap holds, as mathematical values.
pub struct BootModel {
    pub phase: Phase,
    pub vertex_code: Seq<u8>,
    pub fragment_code: Seq<u8>,
    pub vertex_words: Seq<u32>,
    pub fragment_words: Seq<u32>,
    pub queue_family: nat,
    pub chain: ChainConfig,
    pub image_count: nat,
    pub pipeline: PipelineConfig,
    pub framebuffers: Seq<FramebufferSpec>,
    pub device_created: bool,
}

/// Position of a phase along the bootstrap; a failed bootstrap has none.
pub open spec fn rank(p: Phase) -> int {
    match p {
        Phase::Uninitialized => 0,
        Phase::ContextReady => 1,
        Phase::SurfaceBound => 2,
        Phase::FamilySelected => 3,
        Phase::DeviceReady => 4,
        Phase::ChainNegotiated => 5,
        Phase::ChainReady => 6,
        Phase::ShadersReady => 7,
        Phase::RenderPassReady => 8,
        Phase::PipelineReady => 9,
        Phase::Ready => 10,
        Phase::Failed(_) => -1,
    }
}

pub open spec fn blank_chain() -> ChainConfig {
    ChainConfig {
        image_count: 0,
        format: SurfaceFormat { format: 0, color_space: 0 },
        extent: Extent { width: 0, height: 0 },
        layers: 0,
        usage: 0,
        present_mode: 0,
        composite_alpha: 0,
        identity_transform: false,
        clipped: false,
    }
}

pub open spec fn blank_pipeline() -> PipelineConfig {
    PipelineConfig {
        viewport: Viewport { x: 0, y: 0, width: 0, height: 0 },
        triangle_list: false,
        tessellation: false,
        geometry_stage: false,
        multisample: false,
        depth_stencil_test: false,
        blending: false,
        subpass: 0,
    }
}

/// A bootstrap that has done nothing yet.
pub open spec fn initial(vertex_code: Seq<u8>, fragment_code: Seq<u8>) -> BootModel {
    BootModel {
        phase: Phase::Uninitialized,
        vertex_code,
        fragment_code,
        vertex_words: Seq::empty(),
        fragment_words: Seq::empty(),
        queue_family: 0,
        chain: blank_chain(),
        image_count: 0,
        pipeline: blank_pipeline(),
        framebuffers: Seq::empty(),
        device_created: false,
    }
}

pub open spec fn fail(m: BootModel, e: BootstrapError) -> BootModel {
    BootModel { phase: Phase::Failed(e), ..m }
}

pub open spec fn enter(m: BootModel, p: Phase) -> BootModel {
    BootModel { phase: p, ..m }
}

/// The next state on an event. An event other than the success of the
/// pending step counts as that step's failure; a finished bootstrap ignores
/// every event.
pub open spec fn transition(m: BootModel, e: Event) -> BootModel {
    match m.phase {
        Phase::Uninitialized => match e {
            Event::ContextCreated { device_count } => if device_count == 0 {
                fail(m, BootstrapError::NoDeviceAvailable)
            } else {
                enter(m, Phase::ContextReady)
            },
            _ => fail(m, BootstrapError::BackendUnavailable),
        },
        Phase::ContextReady => match e {
            Event::SurfaceBound => enter(m, Phase::SurfaceBound),
            _ => fail(m, BootstrapError::SurfaceCreationError),
        },
        Phase::SurfaceBound => match e {
            Event::QueueFamilies(fams) => match first_suitable(fams@) {
                Some(i) => BootModel { phase: Phase::FamilySelected, queue_family: i, ..m },
                None => fail(m, BootstrapError::NoSuitableQueueFamily),
            },
            _ => fail(m, BootstrapError::NoSuitableQueueFamily),
        },
        Phase::FamilySelected => match e {
            Event::DeviceCreated => BootModel {
                phase: Phase::DeviceReady,
                device_created: true,
                ..m
            },
            _ => fail(m, BootstrapError::DeviceCreationError),
        },
        Phase::DeviceReady => match e {
            Event::SurfaceCapabilities(caps) => match negotiated(caps) {
                Some(c) => BootModel { phase: Phase::ChainNegotiated, chain: c, ..m },
                None => fail(m, BootstrapError::ChainCreationError),
            },
            _ => fail(m, BootstrapError::ChainCreationError),
        },
        Phase::ChainNegotiated => match e {
            Event::ChainCreated { image_count } => if image_count < m.chain.image_count {
                fail(m, BootstrapError::ChainCreationError)
            } else if !well_framed(m.vertex_code) || !well_framed(m.fragment_code) {
                fail(m, BootstrapError::ShaderLoadError)
            } else {
                BootModel {
                    phase: Phase::ChainReady,
                    image_count: image_count as nat,
                    vertex_words: words_of(m.vertex_code),
                    fragment_words: words_of(m.fragment_code),
                    ..m
                }
            },
            _ => fail(m, BootstrapError::ChainCreationError),
        },
        Phase::ChainReady => match e {
            Event::ShadersLoaded => enter(m, Phase::ShadersReady),
            _ => fail(m, BootstrapError::ShaderCompilationError),
        },
        Phase::ShadersReady => match e {
            Event::RenderPassBuilt => BootModel {
                phase: Phase::RenderPassReady,
                pipeline: pipeline_for(m.chain.extent),
                ..m
            },
            _ => fail(m, BootstrapError::RenderPassError),
        },
        Phase::RenderPassReady => match e {
            Event::PipelineBuilt => BootModel {
                phase: Phase::PipelineReady,
                framebuffers: framebuffers_for(m.image_count, m.chain.extent),
                ..m
            },
            _ => fail(m, BootstrapError::PipelineCreationError),
        },
        Phase::PipelineReady => match e {
            Event::FramebuffersBuilt => enter(m, Phase::Ready),
            _ => fail(m, BootstrapError::FramebufferCreationError),
        },
        Phase::Ready => m,
        Phase::Failed(_) => m,
    }
}

/// Whether `a` is the step that a bootstrap in state `m` asks for.
pub open spec fn announces(m: BootModel, a: Action) -> bool {
    match m.phase {
        Phase::Uninitialized => a is CreateContext,
        Phase::ContextReady => a is BindSurface,
        Phase::SurfaceBound => a == Action::QueryQueueFamilies { device: SELECTED_DEVICE },
        Phase::FamilySelected => a == Action::CreateDevice {
            device: SELECTED_DEVICE,
            queue_family: m.queue_family as usize,
            presentation: true,
        },
        Phase::DeviceReady => a == Action::QuerySurfaceCapabilities { device: SELECTED_DEVICE },
        Phase::ChainNegotiated => a == Action::CreateChain(m.chain),
        Phase::ChainReady => a matches Action::LoadShaders { vertex, fragment } && vertex@
            == m.vertex_words && fragment@ == m.fragment_words,
        Phase::ShadersReady => a == Action::BuildRenderPass(
            render_pass_for(m.chain.format.format),
        ),
        Phase::RenderPassReady => a == Action::BuildPipeline(m.pipeline),
        Phase::PipelineReady => a matches Action::BuildFramebuffers(f) && f@ == m.framebuffers,
        Phase::Ready => a is Finish,
        Phase::Failed(e) => a == Action::Abort(e),
    }
}

impl BootModel {
    /// What holds of every state a bootstrap can reach.
    pub open spec fn inv(self) -> bool {
        let r = rank(self.phase);
        &&& 0 <= r <= 3 ==> !self.device_created
        &&& r >= 4 ==> self.device_created
        &&& self.queue_family <= usize::MAX
        &&& self.image_count <= usize::MAX
        &&& r >= 6 ==> {
            &&& self.image_count >= self.chain.image_count
            &&& well_framed(self.vertex_code)
            &&& well_framed(self.fragment_code)
            &&& self.vertex_words == words_of(self.vertex_code)
            &&& self.fragment_words == words_of(self.fragment_code)
        }
        &&& r >= 8 ==> self.pipeline == pipeline_for(self.chain.extent)
        &&& r >= 9 ==> self.framebuffers == framebuffers_for(self.image_count, self.chain.extent)
    }
}

/// One bootstrap of a presentation surface, driven by the outcomes of the
/// outside steps it asks for.
pub struct Bootstrap {
    phase: Phase,
    vertex_code: Vec<u8>,
    fragment_code: Vec<u8>,
    vertex_words: Vec<u32>,
    fragment_words: Vec<u32>,
    queue_family: usize,
    chain: ChainConfig,
    image_count: usize,
    pipeline: PipelineConfig,
    framebuffers: Vec<FramebufferSpec>,
    device_created: bool,
}

impl View for Bootstrap {
    type V = BootModel;

    closed spec fn view(&self) -> BootModel {
        BootModel {
            phase: self.phase,
            vertex_code: self.vertex_code@,
            fragment_code: self.fragment_code@,
            vertex_words: self.vertex_words@,
            fragment_words: self.fragment_words@,
            queue_family: self.queue_family as nat,
            chain: self.chain,
            image_count: self.image_count as nat,
            pipeline: self.pipeline,
            framebuffers: self.framebuffers@,
            device_created: self.device_created,
        }
    }
}

impl Bootstrap {
    /// A bootstrap that will load the given compiled vertex and fragment
    /// shaders.
    pub fn new(vertex_code: Vec<u8>, fragment_code: Vec<u8>) -> (r: Bootstrap)
        ensures
            r@ == initial(vertex_code@, fragment_code@),
            r@.inv(),
    {
        Bootstrap {
            phase: Phase::Uninitialized,
            vertex_code,
            fragment_code,
            vertex_words: Vec::new(),
            fragment_words: Vec::new(),
            queue_family: 0,
            chain: ChainConfig {
                image_count: 0,
                format: SurfaceFormat { format: 0, color_space: 0 },
                extent: Extent { width: 0, height: 0 },
                layers: 0,
                usage: 0,
                present_mode: 0,
                composite_alpha: 0,
                identity_transform: false,
                clipped: false,
            },
            image_count: 0,
            pipeline: PipelineConfig {
                viewport: Viewport { x: 0, y: 0, width: 0, height: 0 },
                triangle_list: false,
                tessellation: false,
                geometry_stage: false,
                multisample: false,
                depth_stencil_test: false,
                blending: false,
                subpass: 0,
            },
            framebuffers: Vec::new(),
            device_created: false,
        }
    }

    pub fn phase(&self) -> (r: Phase)
        ensures
            r == self@.phase,
    {
        self.phase
    }

    /// The agreed chain parameters; meaningful from `ChainNegotiated` on.
    pub fn chain(&self) -> (r: ChainConfig)
        ensures
            r == self@.chain,
    {
        self.chain
    }

    /// The queue family chosen for drawing and presenting.
    pub fn queue_family(&self) -> (r: usize)
        ensures
            r == self@.queue_family,
    {
        self.queue_family
    }

    /// How many images the created chain holds.
    pub fn image_count(&self) -> (r: usize)
        ensures
            r == self@.image_count,
    {
        self.image_count
    }

    pub fn pipeline(&self) -> (r: PipelineConfig)
        ensures
            r == self@.pipeline,
    {
        self.pipeline
    }

    pub fn framebuffers(&self) -> (r: &Vec<FramebufferSpec>)
        ensures
            r@ == self@.framebuffers,
    {
        &self.framebuffers
    }

    /// Whether a logical device was reported created.
    pub fn device_created(&self) -> (r: bool)
        ensures
            r == self@.device_created,
    {
        self.device_created
    }

    /// The outside step this bootstrap waits for.
    pub fn pending(&self) -> (r: Action)
        ensures
            announces(self@, r),
    {
        match self.phase {
            Phase::Uninitialized => Action::CreateContext,
            Phase::ContextReady => Action::BindSurface,
            Phase::SurfaceBound => Action::QueryQueueFamilies { device: SELECTED_DEVICE },
            Phase::FamilySelected => Action::CreateDevice {
                device: SELECTED_DEVICE,
                queue_family: self.queue_family,
                presentation: true,
            },
            Phase::DeviceReady => Action::QuerySurfaceCapabilities { device: SELECTED_DEVICE },
            Phase::ChainNegotiated => Action::CreateChain(self.chain),
            Phase::ChainReady => Action::LoadShaders {
                vertex: self.vertex_words.clone(),
                fragment: self.fragment_words.clone(),
            },
            Phase::ShadersReady => Action::BuildRenderPass(
                plan_render_pass(self.chain.format.format),
            ),
            Phase::RenderPassReady => Action::BuildPipeline(self.pipeline),
            Phase::PipelineReady => Action::BuildFramebuffers(self.framebuffers.clone()),
            Phase::Ready => Action::Finish,
            Phase::Failed(e) => Action::Abort(e),
        }
    }

    fn fail(&mut self, e: BootstrapError)
        ensures
            final(self)@ == fail(old(self)@, e),
    {
        self.phase = Phase::Failed(e);
    }

    fn on_uninitialized(&mut self, e: Event)
        requires
            old(self).phase == Phase::Uninitialized,
        ensures
            final(self)@ == transition(old(self)@, e),
            old(self)@.inv() ==> final(self)@.inv(),
    {
        match e {
            Event::ContextCreated { device_count } => {
                if device_count == 0 {
                    self.fail(BootstrapError::NoDeviceAvailable);
                } else {
                    self.phase = Phase::ContextReady;
                }
            },
            _ => self.fail(BootstrapError::BackendUnavailable),
        }
    }

    fn on_context_ready(&mut self, e: Event)
        requires
            old(self).phase == Phase::ContextReady,
        ensures
            final(self)@ == transition(old(self)@, e),
            old(self)@.inv() ==> final(self)@.inv(),
    {
        match e {
            Event::SurfaceBound => self.phase = Phase::SurfaceBound,
            _ => self.fail(BootstrapError::SurfaceCreationError),
        }
    }

    fn on_surface_bound(&mut self, e: Event)
        requires
            old(self).phase == Phase::SurfaceBound,
        ensures
            final(self)@ == transition(old(self)@, e),
            old(self)@.inv() ==> final(self)@.inv(),
    {
        match e {
            Event::QueueFamilies(fams) => match select_queue_family(&fams) {
                Some(i) => {
                    self.queue_family = i;
                    self.phase = Phase::FamilySelected;
                },
                None => self.fail(BootstrapError::NoSuitableQueueFamily),
            },
            _ => self.fail(BootstrapError::NoSuitableQueueFamily),
        }
    }

    fn on_family_selected(&mut self, e: Event)
        requires
            old(self).phase == Phase::FamilySelected,
        ensures
            final(self)@ == transition(old(self)@, e),
            old(self)@.inv() ==> final(self)@.inv(),
    {
        match e {
            Event::DeviceCreated => {
                self.device_created = true;
                self.phase = Phase::DeviceReady;
            },
            _ => self.fail(BootstrapError::DeviceCreationError),
        }
    }

    fn on_device_ready(&mut self, e: Event)
        requires
            old(self).phase == Phase::DeviceReady,
        ensures
            final(self)@ == transition(old(self)@, e),
            old(self)@.inv() ==> final(self)@.inv(),
    {
        match e {
            Event::SurfaceCapabilities(caps) => match negotiate_chain(&caps) {
                Some(c) => {
                    self.chain = c;
                    self.phase = Phase::ChainNegotiated;
                },
                None => self.fail(BootstrapError::ChainCreationError),
            },
            _ => self.fail(BootstrapError::ChainCreationError),
        }
    }

    fn on_chain_negotiated(&mut self, e: Event)
        requires
            old(self).phase == Phase::ChainNegotiated,
        ensures
            final(self)@ == transition(old(self)@, e),
            old(self)@.inv() ==> final(self)@.inv(),
    {
        match e {
            Event::ChainCreated { image_count } => {
                if image_count < self.chain.image_count as usize {
                    self.fail(BootstrapError::ChainCreationError);
                } else {
                    match (shader_words(&self.vertex_code), shader_words(&self.fragment_code)) {
                        (Some(v), Some(f)) => {
                            self.vertex_words = v;
                            self.fragment_words = f;
                            self.image_count = image_count;
                            self.phase = Phase::ChainReady;
                        },
                        _ => self.fail(BootstrapError::ShaderLoadError),
                    }
                }
            },
            _ => self.fail(BootstrapError::ChainCreationError),
        }
    }

    fn on_chain_ready(&mut self, e: Event)
        requires
            old(self).phase == Phase::ChainReady,
        ensures
            final(self)@ == transition(old(self)@, e),
            old(self)@.inv() ==> final(self)@.inv(),
    {
        match e {
            Event::ShadersLoaded => self.phase = Phase::ShadersReady,
            _ => self.fail(BootstrapError::ShaderCompilationError),
        }
    }

    fn on_shaders_ready(&mut self, e: Event)
        requires
            old(self).phase == Phase::ShadersReady,
        ensures
            final(self)@ == transition(old(self)@, e),
            old(self)@.inv() ==> final(self)@.inv(),
    {
        match e {
            Event::RenderPassBuilt => {
                self.pipeline = plan_pipeline(self.chain.extent);
                self.phase = Phase::RenderPassReady;
            },
            _ => self.fail(BootstrapError::RenderPassError),
        }
    }

    fn on_render_pass_ready(&mut self, e: Event)
        requires
            old(self).phase == Phase::RenderPassReady,
        ensures
            final(self)@ == transition(old(self)@, e),
            old(self)@.inv() ==> final(self)@.inv(),
    {
        match e {
            Event::PipelineBuilt => {
                self.framebuffers = plan_framebuffers(self.image_count, self.chain.extent);
                self.phase = Phase::PipelineReady;
            },
            _ => self.fail(BootstrapError::PipelineCreationError),
        }
    }

    fn on_pipeline_ready(&mut self, e: Event)
        requires
            old(self).phase == Phase::PipelineReady,
        ensures
            final(self)@ == transition(old(self)@, e),
            old(self)@.inv() ==> final(self)@.inv(),
    {
        match e {
            Event::FramebuffersBuilt => self.phase = Phase::Ready,
            _ => self.fail(BootstrapError::FramebufferCreationError),
        }
    }

    /// Takes the outcome of the pending step and returns the next step.
    pub fn step(&mut self, e: Event) -> (r: Action)
        ensures
            final(self)@ == transition(old(self)@, e),
            announces(final(self)@, r),
            old(self)@.inv() ==> final(self)@.inv(),
    {
        match self.phase {
            Phase::Uninitialized => self.on_uninitialized(e),
            Phase::ContextReady => self.on_context_ready(e),
            Phase::SurfaceBound => self.on_surface_bound(e),
            Phase::FamilySelected => self.on_family_selected(e),
            Phase::DeviceReady => self.on_device_ready(e),
            Phase::ChainNegotiated => self.on_chain_negotiated(e),
            Phase::ChainReady => self.on_chain_ready(e),
            Phase::ShadersReady => self.on_shaders_ready(e),
            Phase::RenderPassReady => self.on_render_pass_ready(e),
            Phase::PipelineReady => self.on_pipeline_ready(e),
            Phase::Ready => {},
            Phase::Failed(_) => {},
        }
        self.pending()
    }
}

} // verus!
