use canvas_window::input::{
    mouse_button, touch_spread, DomEvent, InputEvent, InputState, KeyInput, Modifiers, MouseButton,
    MouseInput, State, TouchInput, WheelInput,
};
use canvas_window::keys::Key;

fn mouse(prevented: bool, button: i16, x: i32, y: i32) -> MouseInput {
    MouseInput { default_prevented: prevented, button, offset_x: x, offset_y: y }
}

fn touches(points: &[(i32, i32)]) -> TouchInput {
    TouchInput { default_prevented: false, touches: points.to_vec() }
}

fn key(code: &str, alt: bool, ctrl: bool, shift: bool, meta: bool) -> KeyInput {
    KeyInput {
        default_prevented: false,
        code: code.to_string(),
        alt_key: alt,
        ctrl_key: ctrl,
        shift_key: shift,
        meta_key: meta,
    }
}

fn released() -> Modifiers {
    Modifiers::default()
}

#[test]
fn default_modifiers_are_released() {
    let m = Modifiers::default();
    assert_eq!(m.alt, State::Released);
    assert_eq!(m.ctrl, State::Released);
    assert_eq!(m.shift, State::Released);
    assert_eq!(m.command, State::Released);
}

#[test]
fn button_numbers() {
    assert_eq!(mouse_button(0), Some(MouseButton::Left));
    assert_eq!(mouse_button(1), Some(MouseButton::Middle));
    assert_eq!(mouse_button(2), Some(MouseButton::Right));
    assert_eq!(mouse_button(3), None);
    assert_eq!(mouse_button(-1), None);
}

#[test]
fn mouse_down_and_up_queue_clicks() {
    let mut s = InputState::new();
    assert!(s.handle(&DomEvent::MouseDown(mouse(false, 0, 10, 20))));
    assert!(s.handle(&DomEvent::MouseUp(mouse(false, 2, 11, 21))));
    assert_eq!(
        s.events,
        vec![
            InputEvent::MouseClick { state: State::Pressed, button: MouseButton::Left, position: (10, 20), modifiers: released() },
            InputEvent::MouseClick { state: State::Released, button: MouseButton::Right, position: (11, 21), modifiers: released() },
        ]
    );
}

#[test]
fn unknown_button_is_handled_but_not_queued() {
    let mut s = InputState::new();
    assert!(s.handle(&DomEvent::MouseDown(mouse(false, 4, 1, 1))));
    assert!(s.events.is_empty());
}

#[test]
fn prevented_events_change_nothing() {
    let mut s = InputState::new();
    assert!(!s.handle(&DomEvent::MouseDown(mouse(true, 0, 1, 1))));
    assert!(!s.handle(&DomEvent::MouseMove(mouse(true, 0, 1, 1))));
    assert!(!s.handle(&DomEvent::Wheel(WheelInput { default_prevented: true, delta_y_bits: 0, offset_x: 0, offset_y: 0 })));
    let mut k = key("ShiftLeft", false, false, true, false);
    k.default_prevented = true;
    assert!(!s.handle(&DomEvent::KeyDown(k)));
    let t = TouchInput { default_prevented: true, touches: vec![] };
    assert!(!s.handle(&DomEvent::TouchEnd(t)));
    assert!(s.events.is_empty());
    assert_eq!(s.modifiers, released());
    assert_eq!(s.last_position, None);
    assert_eq!(s.last_zoom, None);
}

#[test]
fn mouse_motion_deltas_add_up() {
    let mut s = InputState::new();
    s.handle(&DomEvent::MouseMove(mouse(false, 0, 5, 5)));
    s.handle(&DomEvent::MouseMove(mouse(false, 0, 8, 1)));
    s.handle(&DomEvent::MouseMove(mouse(false, 0, 2, 10)));
    assert_eq!(
        s.events,
        vec![
            InputEvent::MouseMotion { delta: (0, 0), position: (5, 5) },
            InputEvent::MouseMotion { delta: (3, -4), position: (8, 1) },
            InputEvent::MouseMotion { delta: (-6, 9), position: (2, 10) },
        ]
    );
    assert_eq!(s.last_position, Some((2, 10)));
}

#[test]
fn motion_delta_does_not_overflow() {
    let mut s = InputState::new();
    s.handle(&DomEvent::MouseMove(mouse(false, 0, i32::MIN, i32::MAX)));
    s.handle(&DomEvent::MouseMove(mouse(false, 0, i32::MAX, i32::MIN)));
    assert_eq!(
        s.events[1],
        InputEvent::MouseMotion { delta: (u32::MAX as i64, -(u32::MAX as i64)), position: (i32::MAX, i32::MIN) }
    );
}

#[test]
fn wheel_carries_its_delta_unchanged() {
    let mut s = InputState::new();
    let bits = (-3.5f64).to_bits();
    assert!(s.handle(&DomEvent::Wheel(WheelInput { default_prevented: false, delta_y_bits: bits, offset_x: 4, offset_y: 9 })));
    assert_eq!(s.events, vec![InputEvent::Scroll { delta_y_bits: bits, position: (4, 9) }]);
}

#[test]
fn one_finger_acts_as_the_left_button() {
    let mut s = InputState::new();
    assert!(s.handle(&DomEvent::TouchStart(touches(&[(3, 4)]))));
    assert!(s.handle(&DomEvent::TouchMove(touches(&[(5, 1)]))));
    assert!(s.handle(&DomEvent::TouchEnd(touches(&[(5, 1)]))));
    assert_eq!(
        s.events,
        vec![
            InputEvent::MouseClick { state: State::Pressed, button: MouseButton::Left, position: (3, 4), modifiers: released() },
            InputEvent::MouseMotion { delta: (2, -3), position: (5, 1) },
            InputEvent::MouseClick { state: State::Released, button: MouseButton::Left, position: (5, 1), modifiers: released() },
        ]
    );
    assert_eq!(s.last_position, None);
    assert_eq!(s.last_zoom, None);
}

#[test]
fn touch_move_without_a_start_only_remembers() {
    let mut s = InputState::new();
    s.handle(&DomEvent::TouchMove(touches(&[(7, 7)])));
    assert!(s.events.is_empty());
    assert_eq!(s.last_position, Some((7, 7)));
}

#[test]
fn two_fingers_pinch() {
    let mut s = InputState::new();
    s.handle(&DomEvent::TouchStart(touches(&[(0, 0), (3, 4)])));
    assert_eq!(s.last_zoom, Some(25));
    assert_eq!(s.last_position, None);
    s.handle(&DomEvent::TouchMove(touches(&[(1, 1), (7, 9)])));
    assert_eq!(
        s.events,
        vec![InputEvent::Pinch { previous_spread: 25, spread: 100, position_sum: (8, 10) }]
    );
    assert_eq!(s.last_zoom, Some(100));
}

#[test]
fn three_fingers_forget_everything() {
    let mut s = InputState::new();
    s.handle(&DomEvent::TouchStart(touches(&[(1, 1)])));
    s.handle(&DomEvent::TouchMove(touches(&[(1, 1), (2, 2), (3, 3)])));
    assert_eq!(s.last_position, None);
    assert_eq!(s.last_zoom, None);
    assert_eq!(s.events.len(), 1);
}

#[test]
fn spread_of_far_touches() {
    assert_eq!(touch_spread((0, 0), (3, 4)), 25);
    let far = touch_spread((i32::MIN, i32::MIN), (i32::MAX, i32::MAX));
    let d = u32::MAX as u128;
    assert_eq!(far, 2 * d * d);
}

#[test]
fn known_keys_are_queued_with_the_held_modifiers() {
    let mut s = InputState::new();
    assert!(s.handle(&DomEvent::KeyDown(key("ControlLeft", false, true, false, false))));
    assert!(s.events.is_empty());
    assert_eq!(s.modifiers.ctrl, State::Pressed);
    assert_eq!(s.modifiers.command, State::Pressed);
    assert_eq!(s.modifiers.alt, State::Released);
    assert!(s.handle(&DomEvent::KeyDown(key("A", false, true, false, false))));
    assert!(s.handle(&DomEvent::KeyUp(key("A", false, true, false, false))));
    let held = Modifiers { alt: State::Released, ctrl: State::Pressed, shift: State::Released, command: State::Pressed };
    assert_eq!(
        s.events,
        vec![
            InputEvent::Key { state: State::Pressed, kind: Key::A, modifiers: held },
            InputEvent::Key { state: State::Released, kind: Key::A, modifiers: held },
        ]
    );
}

#[test]
fn modifiers_stay_pressed() {
    let mut s = InputState::new();
    s.handle(&DomEvent::KeyDown(key("AltLeft", true, false, false, false)));
    s.handle(&DomEvent::KeyDown(key("MetaLeft", false, false, false, true)));
    s.handle(&DomEvent::KeyUp(key("AltLeft", false, false, false, false)));
    s.handle(&DomEvent::KeyDown(key("ShiftLeft", false, false, false, false)));
    assert_eq!(s.modifiers.alt, State::Pressed);
    assert_eq!(s.modifiers.command, State::Pressed);
    assert_eq!(s.modifiers.ctrl, State::Released);
    assert_eq!(s.modifiers.shift, State::Released);
}

#[test]
fn unknown_key_without_modifiers_is_not_handled() {
    let mut s = InputState::new();
    assert!(!s.handle(&DomEvent::KeyDown(key("F13", false, false, false, false))));
    assert!(!s.handle(&DomEvent::KeyUp(key("F13", false, false, false, false))));
    assert!(s.events.is_empty());
}

#[test]
fn taking_events_empties_the_queue() {
    let mut s = InputState::new();
    s.handle(&DomEvent::MouseMove(mouse(false, 0, 1, 2)));
    s.handle(&DomEvent::KeyDown(key("AltRight", true, false, false, false)));
    let taken = s.take_events();
    assert_eq!(taken, vec![InputEvent::MouseMotion { delta: (0, 0), position: (1, 2) }]);
    assert!(s.events.is_empty());
    assert_eq!(s.last_position, Some((1, 2)));
    assert_eq!(s.modifiers.alt, State::Pressed);
    assert!(s.take_events().is_empty());
}
