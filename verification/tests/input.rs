use engine2d::input::InputEvent;
use engine2d::input::InputManager;
use engine2d::window::is_usable_size;
use engine2d::window::react;
use engine2d::window::Reaction;
use engine2d::window::WindowSignal;

#[test]
fn nothing_is_down_at_first() {
    let manager = InputManager::new();
    assert!(!manager.is_key_pressed(0));
    assert!(!manager.is_key_pressed(u64::MAX));
    assert!(!manager.is_mouse_button_pressed(0));
    assert_eq!(manager.get_mouse_position(), (0, 0));
}

#[test]
fn keys_follow_the_last_report() {
    let mut manager = InputManager::new();
    manager.process_window_event(&InputEvent::Key { code: 30, pressed: true });
    manager.process_window_event(&InputEvent::Key { code: 31, pressed: true });
    assert!(manager.is_key_pressed(30));
    assert!(manager.is_key_pressed(31));
    assert!(!manager.is_key_pressed(32));
    manager.process_window_event(&InputEvent::Key { code: 30, pressed: false });
    assert!(!manager.is_key_pressed(30));
    assert!(manager.is_key_pressed(31));
    assert!(!manager.is_mouse_button_pressed(31));
}

#[test]
fn buttons_and_cursor_follow_the_last_report() {
    let mut manager = InputManager::new();
    manager.process_window_event(&InputEvent::MouseButton { button: 1, pressed: true });
    manager.process_window_event(&InputEvent::CursorMoved { x: 12, y: -7 });
    manager.process_window_event(&InputEvent::Other);
    assert!(manager.is_mouse_button_pressed(1));
    assert!(!manager.is_mouse_button_pressed(0));
    assert!(!manager.is_key_pressed(1));
    assert_eq!(manager.get_mouse_position(), (12, -7));
    manager.process_window_event(&InputEvent::MouseButton { button: 1, pressed: false });
    manager.process_window_event(&InputEvent::CursorMoved { x: i64::MAX, y: i64::MIN });
    assert!(!manager.is_mouse_button_pressed(1));
    assert_eq!(manager.get_mouse_position(), (i64::MAX, i64::MIN));
}

#[test]
fn window_signals_get_their_reaction() {
    assert_eq!(react(WindowSignal::CloseRequested), Reaction::Exit);
    assert_eq!(react(WindowSignal::RedrawRequested), Reaction::Frame);
    assert_eq!(react(WindowSignal::Other), Reaction::Ignore);
    assert_eq!(
        react(WindowSignal::Resized { width: 800, height: 600 }),
        Reaction::Resize { width: 800, height: 600 }
    );
    assert_eq!(react(WindowSignal::Resized { width: 0, height: 600 }), Reaction::Ignore);
    assert_eq!(react(WindowSignal::Resized { width: 800, height: 0 }), Reaction::Ignore);
    assert_eq!(react(WindowSignal::Resized { width: 1, height: 1 }), Reaction::Resize { width: 1, height: 1 });
}

#[test]
fn a_size_with_a_zero_side_is_not_usable() {
    assert!(is_usable_size(1, 1));
    assert!(is_usable_size(u32::MAX, u32::MAX));
    assert!(!is_usable_size(0, 1));
    assert!(!is_usable_size(1, 0));
    assert!(!is_usable_size(0, 0));
}
