use render_loop::surface::{AcquireFailure, FrameStart, Recovery, SurfaceManager};

#[test]
fn new_surface_is_unconfigured_and_skips_frames() {
    let s = SurfaceManager::new(800, 600);
    assert!(!s.is_configured());
    assert_eq!(s.begin_frame(), FrameStart::Skip);
}

#[test]
fn configure_then_acquire_without_resize() {
    let mut s = SurfaceManager::new(800, 600);
    assert!(s.configure(800, 600));
    assert!(s.is_configured());
    assert_eq!(s.begin_frame(), FrameStart::Acquire);
    assert_eq!((s.width, s.height), (800, 600));
}

#[test]
fn zero_width_resize_keeps_configuration() {
    let mut s = SurfaceManager::new(800, 600);
    s.configure(800, 600);
    assert!(!s.resize(0, 480));
    assert_eq!((s.width, s.height, s.configured), (800, 600, true));
}

#[test]
fn zero_height_resize_keeps_configuration() {
    let mut s = SurfaceManager::new(800, 600);
    s.configure(1024, 768);
    assert!(!s.resize(640, 0));
    assert_eq!((s.width, s.height, s.configured), (1024, 768, true));
}

#[test]
fn zero_resize_keeps_unconfigured_state() {
    let mut s = SurfaceManager::new(0, 0);
    assert!(!s.resize(0, 0));
    assert!(!s.is_configured());
    assert_eq!(s.begin_frame(), FrameStart::Skip);
}

#[test]
fn resize_records_new_size_and_configures() {
    let mut s = SurfaceManager::new(800, 600);
    assert!(s.resize(1280, 720));
    assert_eq!((s.width, s.height, s.configured), (1280, 720, true));
}

#[test]
fn lost_and_outdated_reconfigure_at_last_size() {
    let mut s = SurfaceManager::new(800, 600);
    s.resize(1920, 1080);
    assert_eq!(s.recover(AcquireFailure::Lost), Recovery::Reconfigure { width: 1920, height: 1080 });
    assert_eq!(s.recover(AcquireFailure::Outdated), Recovery::Reconfigure { width: 1920, height: 1080 });
}

#[test]
fn other_acquire_failures_drop_the_frame() {
    let s = SurfaceManager::new(800, 600);
    assert_eq!(s.recover(AcquireFailure::Timeout), Recovery::DropFrame);
    assert_eq!(s.recover(AcquireFailure::OutOfMemory), Recovery::DropFrame);
    assert_eq!(s.recover(AcquireFailure::Other), Recovery::DropFrame);
}
