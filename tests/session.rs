use portfolio::session::{Action, Event, InitError, Phase, Session};
use portfolio::surface::SurfaceCaps;
use wgpu::{CompositeAlphaMode, PresentMode, TextureFormat};

fn usable_caps() -> SurfaceCaps {
    SurfaceCaps {
        formats: vec![TextureFormat::Rgba8Unorm, TextureFormat::Rgba8UnormSrgb],
        present_modes: vec![PresentMode::Fifo],
        alpha_modes: vec![CompositeAlphaMode::Opaque],
    }
}

fn up_to_capabilities(s: &mut Session) {
    assert!(matches!(s.handle(Event::Start), Action::CreateSurface));
    assert!(matches!(s.handle(Event::SurfaceCreated), Action::RequestAdapter));
    assert!(matches!(s.handle(Event::AdapterOffered), Action::RequestDevice));
    assert!(matches!(s.handle(Event::DeviceGranted), Action::ReadCapabilities));
    assert_eq!(s.phase, Phase::ReadingCapabilities);
}

fn never_draws_again(s: &mut Session) {
    let before = s.phase.clone();
    for e in [
        Event::Start,
        Event::SurfaceCreated,
        Event::AdapterOffered,
        Event::DeviceGranted,
        Event::Capabilities(usable_caps()),
    ] {
        assert!(matches!(s.handle(e), Action::Wait));
        assert_eq!(s.phase, before);
    }
}

#[test]
fn new_session_is_uninitialized() {
    let s = Session::new(800, 600);
    assert_eq!(s.phase, Phase::Uninitialized);
    assert_eq!((s.width, s.height), (800, 600));
    assert!(!s.is_finished());
}

#[test]
fn successful_negotiation_draws_once() {
    let mut s = Session::new(800, 600);
    up_to_capabilities(&mut s);
    match s.handle(Event::Capabilities(usable_caps())) {
        Action::Draw(plan) => {
            assert_eq!(plan.surface.format, TextureFormat::Rgba8UnormSrgb);
            assert_eq!((plan.surface.width, plan.surface.height), (800, 600));
            assert_eq!(plan.pipeline.target_format, TextureFormat::Rgba8UnormSrgb);
            assert_eq!((plan.draw.vertex_count, plan.draw.instance_count), (3, 1));
        }
        other => panic!("expected a draw, got {:?}", other),
    }
    assert_eq!(s.phase, Phase::Rendered);
    assert!(s.is_finished());
    never_draws_again(&mut s);
}

#[test]
fn missing_adapter_leaves_canvas_blank() {
    let mut s = Session::new(800, 600);
    s.handle(Event::Start);
    s.handle(Event::SurfaceCreated);
    assert!(matches!(s.handle(Event::AdapterRefused), Action::GiveUp(InitError::AdapterUnavailable)));
    assert_eq!(s.phase, Phase::Failed(InitError::AdapterUnavailable));
    assert!(s.is_finished());
    never_draws_again(&mut s);
}

#[test]
fn refused_device_leaves_canvas_blank() {
    let mut s = Session::new(800, 600);
    s.handle(Event::Start);
    s.handle(Event::SurfaceCreated);
    s.handle(Event::AdapterOffered);
    match s.handle(Event::DeviceRefused("lost".to_string())) {
        Action::GiveUp(e) => assert_eq!(e, InitError::DeviceRequestFailed("lost".to_string())),
        other => panic!("expected to give up, got {:?}", other),
    }
    assert_eq!(s.phase, Phase::Failed(InitError::DeviceRequestFailed("lost".to_string())));
    never_draws_again(&mut s);
}

#[test]
fn refused_surface_leaves_canvas_blank() {
    let mut s = Session::new(800, 600);
    s.handle(Event::Start);
    match s.handle(Event::SurfaceRefused("no context".to_string())) {
        Action::GiveUp(e) => assert_eq!(e, InitError::SurfaceCreationFailed("no context".to_string())),
        other => panic!("expected to give up, got {:?}", other),
    }
    assert_eq!(s.phase, Phase::Failed(InitError::SurfaceCreationFailed("no context".to_string())));
    never_draws_again(&mut s);
}

#[test]
fn incompatible_surface_leaves_canvas_blank() {
    let mut s = Session::new(800, 600);
    up_to_capabilities(&mut s);
    let empty = SurfaceCaps { formats: Vec::new(), present_modes: Vec::new(), alpha_modes: Vec::new() };
    assert!(matches!(s.handle(Event::Capabilities(empty)), Action::GiveUp(InitError::SurfaceIncompatible)));
    assert_eq!(s.phase, Phase::Failed(InitError::SurfaceIncompatible));
    never_draws_again(&mut s);
}

#[test]
fn out_of_order_event_is_ignored() {
    let mut s = Session::new(10, 10);
    assert!(matches!(s.handle(Event::DeviceGranted), Action::Wait));
    assert_eq!(s.phase, Phase::Uninitialized);
    s.handle(Event::Start);
    assert!(matches!(s.handle(Event::AdapterOffered), Action::Wait));
    assert_eq!(s.phase, Phase::CreatingSurface);
}

#[test]
fn two_mounts_are_independent() {
    let mut first = Session::new(320, 200);
    let mut second = Session::new(640, 400);
    first.handle(Event::Start);
    second.handle(Event::Start);
    first.handle(Event::SurfaceCreated);
    first.handle(Event::AdapterRefused);
    assert_eq!(first.phase, Phase::Failed(InitError::AdapterUnavailable));
    assert_eq!(second.phase, Phase::CreatingSurface);
    second.handle(Event::SurfaceCreated);
    second.handle(Event::AdapterOffered);
    second.handle(Event::DeviceGranted);
    match second.handle(Event::Capabilities(usable_caps())) {
        Action::Draw(plan) => assert_eq!((plan.surface.width, plan.surface.height), (640, 400)),
        other => panic!("expected a draw, got {:?}", other),
    }
    assert_eq!(first.phase, Phase::Failed(InitError::AdapterUnavailable));
    let third = Session::new(320, 200);
    assert_eq!(third.phase, Phase::Uninitialized);
}

#[test]
fn error_messages() {
    assert_eq!(
        InitError::SurfaceCreationFailed("canvas has no context".to_string()).message(),
        "Failed to create surface: canvas has no context"
    );
    assert_eq!(InitError::AdapterUnavailable.message(), "Failed to get adapter");
    assert_eq!(
        InitError::DeviceRequestFailed("device lost".to_string()).message(),
        "Failed to get device: device lost"
    );
    assert_eq!(InitError::SurfaceIncompatible.message(), "Surface supports no usable configuration");
}
