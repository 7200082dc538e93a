use skopio::input::{
    activity_detected, flag_for_modifier, on_mouse_moved, KeyEvent, KeyboardState, MouseButton,
    MouseButtonEvent, MouseButtons, FLAG_ALPHA_SHIFT, FLAG_COMMAND, FLAG_SHIFT,
};
use std::collections::HashSet;

#[test]
fn mouse_buttons() {
    let mut b = MouseButtons::none();
    assert!(!b.any_pressed());
    assert_eq!(b.apply(MouseButtonEvent::LeftDown), Some(MouseButton::Left));
    assert!(b.left && b.any_pressed());
    assert_eq!(b.apply(MouseButtonEvent::RightDown), Some(MouseButton::Right));
    assert_eq!(b.apply(MouseButtonEvent::LeftUp), None);
    assert_eq!(b.apply(MouseButtonEvent::RightUp), None);
    assert!(!b.any_pressed());
    assert_eq!(b.apply(MouseButtonEvent::OtherDown), Some(MouseButton::Other));
    assert!(b.other);
}

#[test]
fn activity() {
    let none = MouseButtons::none();
    assert!(!activity_detected(false, &none, false));
    assert!(activity_detected(true, &none, false));
    assert!(activity_detected(false, &none, true));
    let held = MouseButtons { middle: true, ..none };
    assert!(activity_detected(false, &held, false));
}

#[test]
fn mouse_moves_are_debounced() {
    let mut last = 0u64;
    assert!(!on_mouse_moved(&mut last, true, 50_000_000));
    assert_eq!(last, 0);
    assert!(on_mouse_moved(&mut last, true, 50_000_001));
    assert_eq!(last, 50_000_001);
    assert!(!on_mouse_moved(&mut last, false, 500_000_000));
    assert!(!on_mouse_moved(&mut last, true, 10));
}

#[test]
fn modifier_flags() {
    assert_eq!(flag_for_modifier(56), Some(FLAG_SHIFT));
    assert_eq!(flag_for_modifier(55), Some(FLAG_COMMAND));
    assert_eq!(flag_for_modifier(57), Some(FLAG_ALPHA_SHIFT));
    assert_eq!(flag_for_modifier(0), None);
}

#[test]
fn keyboard_press_and_release() {
    let mut k = KeyboardState::new(0);
    assert!(!k.any_pressed());
    k.apply(KeyEvent::KeyDown { autorepeat: false }, 12, 5);
    assert!(k.any_pressed());
    assert_eq!(k.last_keypress, 5);
    assert_eq!(k.get_pressed_keys(), HashSet::from([12]));
    k.apply(KeyEvent::KeyDown { autorepeat: true }, 13, 6);
    assert_eq!(k.get_pressed_keys(), HashSet::from([12]));
    k.apply(KeyEvent::KeyUp, 12, 7);
    assert!(!k.any_pressed());
    assert_eq!(k.last_keypress, 7);
}

#[test]
fn modifier_changes() {
    let mut k = KeyboardState::new(0);
    k.apply(KeyEvent::FlagsChanged { flags: FLAG_SHIFT }, 56, 1);
    assert_eq!(k.get_pressed_keys(), HashSet::from([56]));
    k.apply(KeyEvent::FlagsChanged { flags: 0 }, 56, 2);
    assert!(k.get_pressed_keys().is_empty());
    k.apply(KeyEvent::KeyDown { autorepeat: false }, 3, 3);
    k.apply(KeyEvent::FlagsChanged { flags: u64::MAX }, 3, 4);
    assert!(k.get_pressed_keys().is_empty());
}
