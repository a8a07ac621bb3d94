use vkboot::{
    chain_extent, negotiate_chain, plan_framebuffers, plan_pipeline, plan_render_pass,
    select_queue_family, shader_words, Action, Bootstrap, BootstrapError, Event, Extent, Phase,
    QueueFamily, SurfaceCaps, SurfaceFormat, Viewport,
};

fn blob(words: &[u32]) -> Vec<u8> {
    let mut b = Vec::new();
    for w in words {
        b.extend_from_slice(&w.to_le_bytes());
    }
    b
}

fn vertex_blob() -> Vec<u8> {
    blob(&[0x0723_0203, 0x0001_0000, 7])
}

fn fragment_blob() -> Vec<u8> {
    blob(&[0x0723_0203, 0x0001_0300])
}

fn family(graphics: bool, present: bool) -> QueueFamily {
    QueueFamily { supports_graphics: graphics, supports_present: present }
}

fn caps(min_image_count: u32, current_extent: Option<Extent>) -> SurfaceCaps {
    SurfaceCaps {
        min_image_count,
        current_extent,
        supported_usage: 0x1f,
        formats: vec![SurfaceFormat { format: 44, color_space: 0 }],
        present_modes: vec![2],
        composite_alphas: vec![1],
    }
}

/// Answers each step with its success until the bootstrap reaches `target`
/// or ends.
fn drive_to(b: &mut Bootstrap, target: Phase, surface: SurfaceCaps, images: usize) -> Action {
    let mut action = b.pending();
    while b.phase() != target {
        let e = match b.phase() {
            Phase::Uninitialized => Event::ContextCreated { device_count: 1 },
            Phase::ContextReady => Event::SurfaceBound,
            Phase::SurfaceBound => Event::QueueFamilies(vec![family(true, true)]),
            Phase::FamilySelected => Event::DeviceCreated,
            Phase::DeviceReady => Event::SurfaceCapabilities(surface.clone()),
            Phase::ChainNegotiated => Event::ChainCreated { image_count: images },
            Phase::ChainReady => Event::ShadersLoaded,
            Phase::ShadersReady => Event::RenderPassBuilt,
            Phase::RenderPassReady => Event::PipelineBuilt,
            Phase::PipelineReady => Event::FramebuffersBuilt,
            Phase::Ready | Phase::Failed(_) => break,
        };
        action = b.step(e);
    }
    action
}

#[test]
fn end_to_end_reaches_ready() {
    let mut b = Bootstrap::new(vertex_blob(), fragment_blob());
    assert!(matches!(b.pending(), Action::CreateContext));
    assert!(matches!(b.step(Event::ContextCreated { device_count: 1 }), Action::BindSurface));
    match b.step(Event::SurfaceBound) {
        Action::QueryQueueFamilies { device } => assert_eq!(device, 0),
        a => panic!("unexpected {:?}", a),
    }
    match b.step(Event::QueueFamilies(vec![family(true, true)])) {
        Action::CreateDevice { device, queue_family, presentation } => {
            assert_eq!((device, queue_family, presentation), (0, 0, true));
        }
        a => panic!("unexpected {:?}", a),
    }
    assert!(matches!(b.step(Event::DeviceCreated), Action::QuerySurfaceCapabilities { device: 0 }));
    let chain = match b.step(Event::SurfaceCapabilities(caps(2, Some(Extent { width: 800, height: 600 })))) {
        Action::CreateChain(c) => c,
        a => panic!("unexpected {:?}", a),
    };
    assert_eq!(chain.image_count, 2);
    assert_eq!(chain.extent, Extent { width: 800, height: 600 });
    assert_eq!(chain.format, SurfaceFormat { format: 44, color_space: 0 });
    assert_eq!(chain.present_mode, 2);
    assert_eq!(chain.composite_alpha, 1);
    assert_eq!(chain.usage, 0x10);
    assert!(chain.identity_transform && chain.clipped);
    match b.step(Event::ChainCreated { image_count: 2 }) {
        Action::LoadShaders { vertex, fragment } => {
            assert_eq!(vertex, vec![0x0723_0203, 0x0001_0000, 7]);
            assert_eq!(fragment, vec![0x0723_0203, 0x0001_0300]);
        }
        a => panic!("unexpected {:?}", a),
    }
    match b.step(Event::ShadersLoaded) {
        Action::BuildRenderPass(rp) => {
            assert_eq!(rp.format, 44);
            assert!(rp.clear_on_load && rp.store_on_finish && !rp.depth_stencil);
            assert_eq!(rp.samples, 1);
        }
        a => panic!("unexpected {:?}", a),
    }
    match b.step(Event::RenderPassBuilt) {
        Action::BuildPipeline(p) => {
            assert_eq!(p.viewport, Viewport { x: 0, y: 0, width: 800, height: 600 });
        }
        a => panic!("unexpected {:?}", a),
    }
    match b.step(Event::PipelineBuilt) {
        Action::BuildFramebuffers(fbs) => {
            assert_eq!(fbs.len(), 2);
            for (i, fb) in fbs.iter().enumerate() {
                assert_eq!((fb.image, fb.width, fb.height, fb.layers), (i, 800, 600, 1));
            }
        }
        a => panic!("unexpected {:?}", a),
    }
    assert!(matches!(b.step(Event::FramebuffersBuilt), Action::Finish));
    assert_eq!(b.phase(), Phase::Ready);
    assert_eq!(b.image_count(), 2);
    assert_eq!(b.framebuffers().len(), 2);
    assert_eq!(b.pipeline().viewport, Viewport { x: 0, y: 0, width: 800, height: 600 });
}

#[test]
fn end_to_end_without_present_support_fails() {
    let mut b = Bootstrap::new(vertex_blob(), fragment_blob());
    b.step(Event::ContextCreated { device_count: 1 });
    b.step(Event::SurfaceBound);
    let a = b.step(Event::QueueFamilies(vec![family(true, false), family(false, false)]));
    assert!(matches!(a, Action::Abort(BootstrapError::NoSuitableQueueFamily)));
    assert_eq!(b.phase(), Phase::Failed(BootstrapError::NoSuitableQueueFamily));
    assert!(!b.device_created());
}

#[test]
fn graphics_only_and_present_only_families_do_not_combine() {
    let mut b = Bootstrap::new(vertex_blob(), fragment_blob());
    b.step(Event::ContextCreated { device_count: 3 });
    b.step(Event::SurfaceBound);
    let a = b.step(Event::QueueFamilies(vec![family(true, false), family(false, true)]));
    assert!(matches!(a, Action::Abort(BootstrapError::NoSuitableQueueFamily)));
    assert!(!b.device_created());
}

#[test]
fn first_suitable_family_is_chosen() {
    let fams = vec![family(false, true), family(true, false), family(true, true), family(true, true)];
    assert_eq!(select_queue_family(&fams), Some(2));
    assert_eq!(select_queue_family(&vec![]), None);
    let mut b = Bootstrap::new(vertex_blob(), fragment_blob());
    b.step(Event::ContextCreated { device_count: 1 });
    b.step(Event::SurfaceBound);
    b.step(Event::QueueFamilies(fams));
    assert_eq!(b.queue_family(), 2);
    assert_eq!(b.phase(), Phase::FamilySelected);
}

#[test]
fn undefined_extent_falls_back_to_default() {
    assert_eq!(chain_extent(None), Extent { width: 1280, height: 1024 });
    assert_eq!(chain_extent(Some(Extent { width: 3, height: 4 })), Extent { width: 3, height: 4 });
    let c = negotiate_chain(&caps(3, None)).unwrap();
    assert_eq!(c.extent, Extent { width: 1280, height: 1024 });
    let mut b = Bootstrap::new(vertex_blob(), fragment_blob());
    drive_to(&mut b, Phase::Ready, caps(3, None), 3);
    assert_eq!(b.chain().extent, Extent { width: 1280, height: 1024 });
    assert_eq!(b.pipeline().viewport, Viewport { x: 0, y: 0, width: 1280, height: 1024 });
}

#[test]
fn framebuffers_one_per_chain_image_in_order() {
    let fbs = plan_framebuffers(4, Extent { width: 640, height: 480 });
    assert_eq!(fbs.len(), 4);
    for (i, fb) in fbs.iter().enumerate() {
        assert_eq!((fb.image, fb.width, fb.height, fb.layers), (i, 640, 480, 1));
    }
    assert!(plan_framebuffers(0, Extent { width: 1, height: 1 }).is_empty());
    // The backend may make more images than the minimum asked for.
    let mut b = Bootstrap::new(vertex_blob(), fragment_blob());
    drive_to(&mut b, Phase::Ready, caps(2, Some(Extent { width: 640, height: 480 })), 3);
    assert_eq!(b.phase(), Phase::Ready);
    assert_eq!(b.image_count(), 3);
    let fbs = b.framebuffers();
    assert_eq!(fbs.len(), 3);
    for (i, fb) in fbs.iter().enumerate() {
        assert_eq!(fb.image, i);
    }
}

#[test]
fn viewport_matches_chain_extent() {
    let p = plan_pipeline(Extent { width: 1920, height: 1080 });
    assert_eq!(p.viewport, Viewport { x: 0, y: 0, width: 1920, height: 1080 });
    assert!(p.triangle_list && !p.tessellation && !p.geometry_stage);
    assert!(!p.multisample && !p.depth_stencil_test && !p.blending);
    assert_eq!(p.subpass, 0);
    let rp = plan_render_pass(50);
    assert_eq!(rp.format, 50);
    let mut b = Bootstrap::new(vertex_blob(), fragment_blob());
    drive_to(&mut b, Phase::Ready, caps(2, Some(Extent { width: 1024, height: 768 })), 2);
    assert_eq!(b.pipeline().viewport.width, b.chain().extent.width);
    assert_eq!(b.pipeline().viewport.height, b.chain().extent.height);
}

#[test]
fn ready_bootstrap_ignores_further_events() {
    let mut b = Bootstrap::new(vertex_blob(), fragment_blob());
    drive_to(&mut b, Phase::Ready, caps(2, Some(Extent { width: 800, height: 600 })), 2);
    let a = b.step(Event::SurfaceCapabilities(caps(2, Some(Extent { width: 10, height: 10 }))));
    assert!(matches!(a, Action::Finish));
    assert_eq!(b.chain().extent, Extent { width: 800, height: 600 });
    assert_eq!(b.phase(), Phase::Ready);
}

#[test]
fn independent_bootstraps_do_not_interfere() {
    let mut a = Bootstrap::new(vertex_blob(), fragment_blob());
    let mut b = Bootstrap::new(vertex_blob(), fragment_blob());
    a.step(Event::ContextCreated { device_count: 1 });
    b.step(Event::ContextCreated { device_count: 1 });
    a.step(Event::SurfaceBound);
    b.step(Event::StepFailed);
    assert_eq!(b.phase(), Phase::Failed(BootstrapError::SurfaceCreationError));
    drive_to(&mut a, Phase::Ready, caps(2, Some(Extent { width: 800, height: 600 })), 2);
    assert_eq!(a.phase(), Phase::Ready);
    drop(b);
    assert_eq!(a.framebuffers().len(), 2);
    let mut c = Bootstrap::new(vertex_blob(), fragment_blob());
    drive_to(&mut c, Phase::Ready, caps(3, Some(Extent { width: 320, height: 200 })), 3);
    assert_eq!(a.chain().extent, Extent { width: 800, height: 600 });
    assert_eq!(c.chain().extent, Extent { width: 320, height: 200 });
}

fn fails_with(at: Phase, e: Event, err: BootstrapError) {
    let mut b = Bootstrap::new(vertex_blob(), fragment_blob());
    drive_to(&mut b, at, caps(2, Some(Extent { width: 800, height: 600 })), 2);
    assert_eq!(b.phase(), at);
    let a = b.step(e);
    assert!(matches!(a, Action::Abort(x) if x == err));
    assert_eq!(b.phase(), Phase::Failed(err));
    assert!(matches!(b.step(Event::DeviceCreated), Action::Abort(x) if x == err));
}

#[test]
fn each_step_has_its_error() {
    fails_with(Phase::Uninitialized, Event::StepFailed, BootstrapError::BackendUnavailable);
    fails_with(
        Phase::Uninitialized,
        Event::ContextCreated { device_count: 0 },
        BootstrapError::NoDeviceAvailable,
    );
    fails_with(Phase::ContextReady, Event::StepFailed, BootstrapError::SurfaceCreationError);
    fails_with(Phase::SurfaceBound, Event::StepFailed, BootstrapError::NoSuitableQueueFamily);
    fails_with(Phase::FamilySelected, Event::StepFailed, BootstrapError::DeviceCreationError);
    fails_with(Phase::DeviceReady, Event::StepFailed, BootstrapError::ChainCreationError);
    fails_with(Phase::ChainNegotiated, Event::StepFailed, BootstrapError::ChainCreationError);
    fails_with(
        Phase::ChainNegotiated,
        Event::ChainCreated { image_count: 1 },
        BootstrapError::ChainCreationError,
    );
    fails_with(Phase::ChainReady, Event::StepFailed, BootstrapError::ShaderCompilationError);
    fails_with(Phase::ShadersReady, Event::StepFailed, BootstrapError::RenderPassError);
    fails_with(Phase::RenderPassReady, Event::StepFailed, BootstrapError::PipelineCreationError);
    fails_with(Phase::PipelineReady, Event::StepFailed, BootstrapError::FramebufferCreationError);
    fails_with(Phase::PipelineReady, Event::ShadersLoaded, BootstrapError::FramebufferCreationError);
}

#[test]
fn incompatible_surface_fails_the_chain() {
    let mut no_format = caps(2, None);
    no_format.formats.clear();
    let mut no_mode = caps(2, None);
    no_mode.present_modes.clear();
    let mut no_alpha = caps(2, None);
    no_alpha.composite_alphas.clear();
    let mut no_color = caps(2, None);
    no_color.supported_usage = 0x0f;
    for c in [no_format, no_mode, no_alpha, no_color, caps(0, None)] {
        assert!(negotiate_chain(&c).is_none());
        let mut b = Bootstrap::new(vertex_blob(), fragment_blob());
        drive_to(&mut b, Phase::DeviceReady, caps(2, None), 2);
        let a = b.step(Event::SurfaceCapabilities(c));
        assert!(matches!(a, Action::Abort(BootstrapError::ChainCreationError)));
    }
}

#[test]
fn malformed_shader_fails_to_load() {
    for bad in [vec![], vec![3, 2, 35], blob(&[0x0302_2307, 1]), vec![3, 2, 35, 7, 0]] {
        assert!(shader_words(&bad).is_none());
        let mut b = Bootstrap::new(vertex_blob(), bad);
        drive_to(&mut b, Phase::ChainNegotiated, caps(2, None), 2);
        let a = b.step(Event::ChainCreated { image_count: 2 });
        assert!(matches!(a, Action::Abort(BootstrapError::ShaderLoadError)));
    }
}

#[test]
fn shader_words_read_little_endian() {
    let w = shader_words(&vec![3, 2, 35, 7, 0x78, 0x56, 0x34, 0x12]).unwrap();
    assert_eq!(w, vec![0x0723_0203, 0x1234_5678]);
}
