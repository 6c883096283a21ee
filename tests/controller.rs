use polyforge::{EventAction, PolyForge3D, PolyForgeError, WindowSignal, WINDOW_TITLE};

type Probe = PolyForge3D<u32, u64, u8>;

#[test]
fn new_controller_has_no_window() {
    let app: Probe = PolyForge3D::new(9);
    assert!(app.window.is_none());
    assert!(app.surfaces.is_empty());
    assert_eq!(app.renderer, Some(9));
}

#[test]
fn controller_without_renderer_is_empty() {
    let app: Probe = PolyForge3D::without_renderer();
    assert!(app.window.is_none());
    assert!(app.surfaces.is_empty());
    assert!(app.renderer.is_none());
}

#[test]
fn resumed_creates_exactly_one_window() {
    let mut app: Probe = PolyForge3D::new(1);
    let mut made = 0;
    app.resumed(|| {
        made += 1;
        41
    });
    assert_eq!(app.window, Some(41));
    app.resumed(|| {
        made += 1;
        42
    });
    assert_eq!(app.window, Some(41));
    assert_eq!(made, 1);
}

#[test]
fn resumed_keeps_surfaces_and_renderer() {
    let mut app: Probe = PolyForge3D::new(3);
    app.create_surface_with(|_r: &u8| Ok::<u64, String>(70)).unwrap();
    app.resumed(|| 5);
    assert_eq!(app.surfaces, vec![70]);
    assert_eq!(app.renderer, Some(3));
}

#[test]
fn close_requested_exits_in_every_state() {
    let mut app: Probe = PolyForge3D::without_renderer();
    assert!(matches!(app.window_event(WindowSignal::CloseRequested), EventAction::Exit));
    app.resumed(|| 8);
    assert!(matches!(app.window_event(WindowSignal::CloseRequested), EventAction::Exit));
    let with_renderer: Probe = PolyForge3D::new(2);
    assert!(matches!(with_renderer.window_event(WindowSignal::CloseRequested), EventAction::Exit));
}

#[test]
fn other_signals_only_log_or_ignore() {
    let mut app: Probe = PolyForge3D::new(2);
    app.resumed(|| 8);
    match app.window_event(WindowSignal::Destroyed) {
        EventAction::Report(m) => assert_eq!(m, "Confirm succesful window cleanup"),
        other => panic!("unexpected {:?}", other),
    }
    match app.window_event(WindowSignal::MouseInput) {
        EventAction::Report(m) => assert_eq!(m, "Test"),
        other => panic!("unexpected {:?}", other),
    }
    assert!(matches!(app.window_event(WindowSignal::Other), EventAction::Ignore));
    assert_eq!(app.window, Some(8));
}

#[test]
fn surface_without_renderer_is_refused() {
    let mut app: Probe = PolyForge3D::without_renderer();
    let mut called = false;
    let r = app.create_surface_with(|_r: &u8| {
        called = true;
        Ok::<u64, String>(1)
    });
    assert!(matches!(r, Err(PolyForgeError::RendererNotInitialized)));
    assert!(!called);
    assert!(app.surfaces.is_empty());
}

#[test]
fn successful_surfaces_accumulate_in_order() {
    let mut app: Probe = PolyForge3D::new(4);
    for s in [10u64, 20, 30, 40] {
        let r = app.create_surface_with(|renderer: &u8| Ok::<u64, String>(s + *renderer as u64));
        assert!(r.is_ok());
    }
    assert_eq!(app.surfaces, vec![14, 24, 34, 44]);
}

#[test]
fn duplicate_surfaces_are_kept() {
    let mut app: Probe = PolyForge3D::new(0);
    app.create_surface_with(|_r: &u8| Ok::<u64, String>(5)).unwrap();
    app.create_surface_with(|_r: &u8| Ok::<u64, String>(5)).unwrap();
    assert_eq!(app.surfaces, vec![5, 5]);
}

#[test]
fn failed_surface_wraps_driver_error() {
    let mut app: Probe = PolyForge3D::new(4);
    app.create_surface_with(|_r: &u8| Ok::<u64, String>(1)).unwrap();
    let r = app.create_surface_with(|_r: &u8| Err::<u64, String>("no display".to_string()));
    match r {
        Err(PolyForgeError::SurfaceCreationFailed(e)) => assert_eq!(e, "no display"),
        other => panic!("unexpected {:?}", other),
    }
    assert_eq!(app.surfaces, vec![1]);
}

#[test]
fn error_messages() {
    let missing: PolyForgeError<String> = PolyForgeError::RendererNotInitialized;
    assert_eq!(missing.message(), "Renderer is not initalized");
    let failed: PolyForgeError<String> = PolyForgeError::SurfaceCreationFailed("lost".to_string());
    assert_eq!(failed.message(), "Failed to create a surface: lost");
    let other: PolyForgeError<String> = PolyForgeError::Other("custom".to_string());
    assert_eq!(other.message(), "custom");
}

#[test]
fn window_title() {
    assert_eq!(WINDOW_TITLE, "PolyForge3D");
}

