use mindland::input::AtomicKeyboardState;
use mindland::input::AtomicMouseState;
use mindland::input::InputEvent;
use mindland::input::InputManager;

#[test]
fn delta_reflects_only_the_latest_position_update() {
    let mut mouse = AtomicMouseState::new();

    // P0 = (10, 20), P1 = (13, 18), P2 = (20, 30).
    mouse.update_position(10, 20);
    mouse.update_position(13, 18);
    assert_eq!(mouse.delta(), (3, -2));
    assert_eq!(mouse.position(), (13, 18));

    mouse.update_position(20, 30);
    assert_eq!(mouse.delta(), (7, 12), "the delta is overwritten, never accumulated");
    assert_eq!(mouse.position(), (20, 30));
}

#[test]
fn delta_is_exact_at_the_coordinate_extremes() {
    let mut mouse = AtomicMouseState::new();
    mouse.update_position(i32::MIN, i32::MAX);
    mouse.update_position(i32::MAX, i32::MIN);
    let (dx, dy) = mouse.delta();
    assert_eq!(dx, i32::MAX as i64 - i32::MIN as i64);
    assert_eq!(dy, i32::MIN as i64 - i32::MAX as i64);
}

#[test]
fn buttons_toggle_independently() {
    let mut mouse = AtomicMouseState::new();
    assert!(!mouse.is_button_pressed(0));

    mouse.set_button_state(0, true);
    mouse.set_button_state(2, true);
    assert!(mouse.is_button_pressed(0));
    assert!(!mouse.is_button_pressed(1));
    assert!(mouse.is_button_pressed(2));
    assert!(!mouse.is_button_pressed(63));

    mouse.set_button_state(0, false);
    assert!(!mouse.is_button_pressed(0));
    assert!(mouse.is_button_pressed(2));

    mouse.set_button_state(63, true);
    assert!(mouse.is_button_pressed(63));

    // Button state does not disturb the position pair.
    assert_eq!(mouse.position(), (0, 0));
    assert_eq!(mouse.delta(), (0, 0));
}

#[test]
fn keyboard_tracks_each_key_separately() {
    let mut keyboard = AtomicKeyboardState::new();
    assert!(!keyboard.key_pressed(65));

    keyboard.set_key_state(65, true);
    keyboard.set_key_state(255, true);
    assert!(keyboard.key_pressed(65));
    assert!(keyboard.key_pressed(255));
    assert!(!keyboard.key_pressed(66));

    keyboard.set_key_state(65, false);
    assert!(!keyboard.key_pressed(65));
    assert!(keyboard.key_pressed(255));

    // A key code outside the table is ignored and reads as released.
    keyboard.set_key_state(300, true);
    assert!(!keyboard.key_pressed(300));
}

#[test]
fn events_come_out_oldest_first_and_only_once() {
    let mut manager = InputManager::new();
    assert_eq!(manager.polling_rate, 1000);
    assert_eq!(manager.pending_events(), 0);
    assert_eq!(manager.pop_event(), None);

    manager.push_event(InputEvent::KeyPressed { key: 65, timestamp_us: 1 });
    manager.push_event(InputEvent::MouseMoved { dx: 3, dy: -2, timestamp_us: 2 });
    manager.push_event(InputEvent::KeyReleased { key: 65, timestamp_us: 3 });
    assert_eq!(manager.pending_events(), 3);

    assert_eq!(manager.pop_event(), Some(InputEvent::KeyPressed { key: 65, timestamp_us: 1 }));
    assert_eq!(
        manager.pop_event(),
        Some(InputEvent::MouseMoved { dx: 3, dy: -2, timestamp_us: 2 })
    );
    assert_eq!(manager.pending_events(), 1);
    assert_eq!(manager.pop_event(), Some(InputEvent::KeyReleased { key: 65, timestamp_us: 3 }));
    assert_eq!(manager.pop_event(), None);
    assert_eq!(manager.pending_events(), 0);
}

#[test]
fn manager_reads_go_through_to_the_shared_state() {
    let mut manager = InputManager::new();
    assert!(!manager.is_key_pressed(32));
    manager.keyboard_state.set_key_state(32, true);
    assert!(manager.is_key_pressed(32));
    assert!(!manager.is_key_pressed(3000));

    assert_eq!(manager.mouse_position(), (0, 0));
    manager.mouse_state.update_position(-5, 9);
    assert_eq!(manager.mouse_position(), (-5, 9));
    assert_eq!(manager.mouse_delta(), (-5, 9));
}
