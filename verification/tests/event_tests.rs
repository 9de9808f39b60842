use triangle_demo::events::{EventEffect, KeyAction, KeyCode, WindowEvent, WindowState};

#[test]
fn resize_stores_size_and_sets_viewport() {
    let mut s = WindowState::new(800, 600);
    let eff = s.dispatch(WindowEvent::FramebufferSize { width: 1024, height: 768 });
    assert_eq!(s.width, 1024);
    assert_eq!(s.height, 768);
    assert!(!s.should_close);
    assert_eq!(
        eff,
        EventEffect::SetViewport { x: 0, y: 0, width: 1024, height: 768 }
    );
}

#[test]
fn escape_press_closes() {
    let mut s = WindowState::new(800, 600);
    let eff = s.dispatch(WindowEvent::Key { key: KeyCode::Escape, action: KeyAction::Press });
    assert!(s.should_close);
    assert_eq!(eff, EventEffect::NoEffect);
}

#[test]
fn other_key_press_does_not_close() {
    let mut s = WindowState::new(800, 600);
    let eff = s.dispatch(WindowEvent::Key { key: KeyCode::OtherKey, action: KeyAction::Press });
    assert!(!s.should_close);
    assert_eq!(s.width, 800);
    assert_eq!(s.height, 600);
    assert_eq!(eff, EventEffect::NoEffect);
}

#[test]
fn escape_release_or_repeat_does_not_close() {
    let mut s = WindowState::new(800, 600);
    s.dispatch(WindowEvent::Key { key: KeyCode::Escape, action: KeyAction::Release });
    assert!(!s.should_close);
    s.dispatch(WindowEvent::Key { key: KeyCode::Escape, action: KeyAction::Repeat });
    assert!(!s.should_close);
}

#[test]
fn unhandled_event_changes_nothing() {
    let mut s = WindowState::new(800, 600);
    let eff = s.dispatch(WindowEvent::OtherEvent);
    assert_eq!(s, WindowState { width: 800, height: 600, should_close: false });
    assert_eq!(eff, EventEffect::NoEffect);
}

#[test]
fn queue_is_dispatched_in_arrival_order() {
    let mut s = WindowState::new(800, 600);
    let queue = vec![
        WindowEvent::FramebufferSize { width: 640, height: 480 },
        WindowEvent::OtherEvent,
        WindowEvent::FramebufferSize { width: 1280, height: 720 },
        WindowEvent::Key { key: KeyCode::Escape, action: KeyAction::Press },
    ];
    let effects = s.dispatch_all(&queue);
    assert_eq!(s.width, 1280);
    assert_eq!(s.height, 720);
    assert!(s.should_close);
    assert_eq!(
        effects,
        vec![
            EventEffect::SetViewport { x: 0, y: 0, width: 640, height: 480 },
            EventEffect::NoEffect,
            EventEffect::SetViewport { x: 0, y: 0, width: 1280, height: 720 },
            EventEffect::NoEffect,
        ]
    );
}

#[test]
fn empty_queue_changes_nothing() {
    let mut s = WindowState::new(800, 600);
    let effects = s.dispatch_all(&Vec::new());
    assert_eq!(effects.len(), 0);
    assert_eq!(s, WindowState { width: 800, height: 600, should_close: false });
}
