use render_loop::input::{AppAction, AppEvent, CameraMoves, Controls, Key, MovementKeys};

#[test]
fn movement_keys_track_press_and_release() {
    let mut m = MovementKeys::new();
    assert!(m.process_key(Key::KeyW, true));
    assert!(m.process_key(Key::ArrowLeft, true));
    assert!(m.forward && m.left && !m.backward && !m.right);
    assert!(m.process_key(Key::ArrowUp, false));
    assert!(!m.forward);
    assert!(m.process_key(Key::KeyS, true));
    assert!(m.process_key(Key::ArrowRight, true));
    assert!(m.backward && m.right);
}

#[test]
fn other_keys_are_not_consumed() {
    let mut m = MovementKeys::new();
    assert!(!m.process_key(Key::Space, true));
    assert!(!m.process_key(Key::Other, true));
    assert_eq!(m, MovementKeys::new());
}

#[test]
fn forward_step_needs_room_ahead() {
    let mut m = MovementKeys::new();
    m.process_key(Key::KeyW, true);
    m.process_key(Key::KeyS, true);
    assert_eq!(
        m.camera_moves(false),
        CameraMoves { forward: false, backward: true, right: false, left: false }
    );
    assert!(m.camera_moves(true).forward);
}

#[test]
fn events_route_to_actions() {
    let mut c = Controls::new();
    assert_eq!(c.on_event(AppEvent::CloseRequested), AppAction::Exit);
    assert_eq!(c.on_event(AppEvent::Resized { width: 640, height: 480 }), AppAction::Resize { width: 640, height: 480 });
    assert_eq!(c.on_event(AppEvent::RedrawRequested), AppAction::Redraw);
    assert_eq!(c.on_event(AppEvent::Other), AppAction::Nothing);
    assert_eq!(c, Controls::new());
}

#[test]
fn escape_press_exits_but_release_does_not() {
    let mut c = Controls::new();
    assert_eq!(c.on_event(AppEvent::Key { key: Key::Escape, pressed: false }), AppAction::Nothing);
    assert_eq!(c.on_event(AppEvent::Key { key: Key::Escape, pressed: true }), AppAction::Exit);
}

#[test]
fn space_shows_alternate_mesh_while_held() {
    let mut c = Controls::new();
    c.on_event(AppEvent::Key { key: Key::Space, pressed: true });
    assert!(c.show_alternate);
    c.on_event(AppEvent::Key { key: Key::Space, pressed: false });
    assert!(!c.show_alternate);
}

#[test]
fn key_events_update_movement() {
    let mut c = Controls::new();
    assert_eq!(c.on_event(AppEvent::Key { key: Key::KeyD, pressed: true }), AppAction::Nothing);
    assert!(c.movement.right);
}
