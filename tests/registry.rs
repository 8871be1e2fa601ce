use ruxel::surface::{
    NativeHandle, Platform, SurfaceCreationError, SurfaceRegistry, WindowAttributes,
};

fn attrs(w: u32, h: u32) -> WindowAttributes {
    WindowAttributes { width: w, height: h, scale_percent: 100 }
}

fn handle(raw: u64) -> NativeHandle {
    NativeHandle { platform: Platform::Wayland, raw }
}

#[test]
fn create_twice_fails_and_keeps_first_surface() {
    let mut reg = SurfaceRegistry::new();
    assert_eq!(reg.create(1, attrs(800, 600), handle(11)), Ok(()));
    assert_eq!(
        reg.create(1, attrs(1024, 768), handle(12)),
        Err(SurfaceCreationError::AlreadyExists)
    );
    assert_eq!(reg.len(), 1);
    let s = reg.get(1).unwrap();
    assert_eq!(s.attributes, attrs(800, 600));
    assert_eq!(s.handle, handle(11));
}

#[test]
fn create_rejects_unusable_handles() {
    let mut reg = SurfaceRegistry::new();
    assert_eq!(reg.create(1, attrs(10, 10), handle(0)), Err(SurfaceCreationError::InvalidHandle));
    let bad = NativeHandle { platform: Platform::Unsupported, raw: 5 };
    assert_eq!(reg.create(2, attrs(10, 10), bad), Err(SurfaceCreationError::InvalidHandle));
    assert_eq!(reg.len(), 0);
    assert!(!reg.contains(1));
    assert!(!reg.contains(2));
}

#[test]
fn duplicate_is_reported_before_bad_handle() {
    let mut reg = SurfaceRegistry::new();
    reg.create(3, attrs(1, 1), handle(9)).unwrap();
    assert_eq!(reg.create(3, attrs(1, 1), handle(0)), Err(SurfaceCreationError::AlreadyExists));
}

#[test]
fn destroy_absent_window_is_noop() {
    let mut reg = SurfaceRegistry::new();
    reg.create(1, attrs(5, 5), handle(1)).unwrap();
    assert!(reg.destroy(42).is_none());
    assert_eq!(reg.len(), 1);
    assert!(reg.contains(1));
}

#[test]
fn destroy_removes_only_that_window_and_keeps_order() {
    let mut reg = SurfaceRegistry::new();
    reg.create(1, attrs(1, 1), handle(1)).unwrap();
    reg.create(2, attrs(2, 2), handle(2)).unwrap();
    reg.create(3, attrs(3, 3), handle(3)).unwrap();
    let gone = reg.destroy(2).unwrap();
    assert_eq!(gone.window, 2);
    assert_eq!(reg.len(), 2);
    assert_eq!(reg.at(0).window, 1);
    assert_eq!(reg.at(1).window, 3);
    assert!(reg.get(2).is_none());
    // a destroyed window may get a new surface
    assert_eq!(reg.create(2, attrs(4, 4), handle(4)), Ok(()));
    assert_eq!(reg.at(2).window, 2);
}

#[test]
fn handle_usability() {
    assert!(handle(7).is_usable());
    assert!(!handle(0).is_usable());
    assert!(!NativeHandle { platform: Platform::Unsupported, raw: 7 }.is_usable());
}
