//! Keyboard and mouse state kept from the system's input events.

use vstd::prelude::*;
use std::collections::HashSet;

verus! {

broadcast use vstd::std_specs::hash::group_hash_axioms;

/// A mouse button, as reported to other trackers when pressed.
#[derive(Debug, Clone, Copy, PartialEq, Eq, Structural)]
pub enum MouseButton {
    Left,
    Right,
    Other,
}

/// Which mouse buttons are held down.
#[derive(Debug, Clone, Copy, PartialEq, Eq, Structural)]
pub struct MouseButtons {
    pub left: bool,
    pub right: bool,
    pub middle: bool,
    pub other: bool,
}

/// A mouse button event.
#[derive(Debug, Clone, Copy, PartialEq, Eq, Structural)]
pub enum MouseButtonEvent {
    LeftDown,
    LeftUp,
    RightDown,
    RightUp,
    OtherDown,
    OtherUp,
}

/// The buttons after `e`.
pub open spec fn buttons_after(b: MouseButtons, e: MouseButtonEvent) -> MouseButtons {
    match e {
        MouseButtonEvent::LeftDown => MouseButtons { left: true, ..b },
        MouseButtonEvent::LeftUp => MouseButtons { left: false, ..b },
        MouseButtonEvent::RightDown => MouseButtons { right: true, ..b },
        MouseButtonEvent::RightUp => MouseButtons { right: false, ..b },
        MouseButtonEvent::OtherDown => MouseButtons { other: true, ..b },
        MouseButtonEvent::OtherUp => MouseButtons { other: false, ..b },
    }
}

/// The button whose press `e` reports, if it is a press.
pub open spec fn pressed_button(e: MouseButtonEvent) -> Option<MouseButton> {
    match e {
        MouseButtonEvent::LeftDown => Some(MouseButton::Left),
        MouseButtonEvent::RightDown => Some(MouseButton::Right),
        MouseButtonEvent::OtherDown => Some(MouseButton::Other),
        _ => None,
    }
}

impl MouseButtons {
    /// No button held.
    pub fn none() -> (r: MouseButtons)
        ensures
            !r.left && !r.right && !r.middle && !r.other,
    {
        MouseButtons { left: false, right: false, middle: false, other: false }
    }

    /// Applies a button event; returns the button to report as pressed.
    pub fn apply(&mut self, e: MouseButtonEvent) -> (r: Option<MouseButton>)
        ensures
            *final(self) == buttons_after(*old(self), e),
            r == pressed_button(e),
    {
        match e {
            MouseButtonEvent::LeftDown => {
                self.left = true;
                Some(MouseButton::Left)
            },
            MouseButtonEvent::LeftUp => {
                self.left = false;
                None
            },
            MouseButtonEvent::RightDown => {
                self.right = true;
                Some(MouseButton::Right)
            },
            MouseButtonEvent::RightUp => {
                self.right = false;
                None
            },
            MouseButtonEvent::OtherDown => {
                self.other = true;
                Some(MouseButton::Other)
            },
            MouseButtonEvent::OtherUp => {
                self.other = false;
                None
            },
        }
    }

    /// Whether any button is held.
    pub fn any_pressed(&self) -> (r: bool)
        ensures
            r == (self.left || self.right || self.middle || self.other),
    {
        self.left || self.right || self.middle || self.other
    }
}

/// Whether the user is active: the mouse moved, a button is held or a
/// key is held.
pub fn activity_detected(mouse_moved: bool, buttons: &MouseButtons, keys_held: bool) -> (r: bool)
    ensures
        r == (mouse_moved || buttons.left || buttons.right || buttons.middle || buttons.other
            || keys_held),
{
    mouse_moved || buttons.any_pressed() || keys_held
}

/// Minimum time between two reported mouse movements, in nanoseconds.
pub const MOVE_DEBOUNCE_NANOS: u64 = 50_000_000;

/// Whether a far enough mouse movement at `now` is reported, given the
/// last reported one at `last_move` (monotonic nanoseconds): only when
/// more than the debounce time has passed.
pub open spec fn reports_move(moved_far: bool, last_move: u64, now: u64) -> bool {
    moved_far && now > last_move && now - last_move > MOVE_DEBOUNCE_NANOS
}

/// Decides whether to report a mouse movement; `moved_far` tells whether
/// it went past the distance threshold. Updates the last reported time.
pub fn on_mouse_moved(last_move: &mut u64, moved_far: bool, now: u64) -> (r: bool)
    ensures
        r == reports_move(moved_far, *old(last_move), now),
        *final(last_move) == (if r { now } else { *old(last_move) }),
{
    if moved_far && now > *last_move && now - *last_move > MOVE_DEBOUNCE_NANOS {
        *last_move = now;
        true
    } else {
        false
    }
}

/// Modifier-key flag bits of the system's keyboard events.
pub const FLAG_ALPHA_SHIFT: u64 = 0x0001_0000;
pub const FLAG_SHIFT: u64 = 0x0002_0000;
pub const FLAG_CONTROL: u64 = 0x0004_0000;
pub const FLAG_ALTERNATE: u64 = 0x0008_0000;
pub const FLAG_COMMAND: u64 = 0x0010_0000;

/// The flag bit of a modifier key, by key code.
pub open spec fn modifier_flag(key_code: i64) -> Option<u64> {
    if key_code == 56 || key_code == 60 {
        Some(FLAG_SHIFT)
    } else if key_code == 59 || key_code == 62 {
        Some(FLAG_CONTROL)
    } else if key_code == 58 || key_code == 61 {
        Some(FLAG_ALTERNATE)
    } else if key_code == 55 || key_code == 54 {
        Some(FLAG_COMMAND)
    } else if key_code == 57 {
        Some(FLAG_ALPHA_SHIFT)
    } else {
        None
    }
}

/// The flag bit of the modifier key `key_code` (shift, control, option,
/// command, caps lock), if it is one.
pub fn flag_for_modifier(key_code: i64) -> (r: Option<u64>)
    ensures
        r == modifier_flag(key_code),
{
    match key_code {
        56 | 60 => Some(FLAG_SHIFT),
        59 | 62 => Some(FLAG_CONTROL),
        58 | 61 => Some(FLAG_ALTERNATE),
        55 | 54 => Some(FLAG_COMMAND),
        57 => Some(FLAG_ALPHA_SHIFT),
        _ => None,
    }
}

/// A keyboard event.
#[derive(Debug, Clone, Copy, PartialEq, Eq, Structural)]
pub enum KeyEvent {
    KeyDown { autorepeat: bool },
    KeyUp,
    /// Modifier state changed; `flags` are the event's flag bits.
    FlagsChanged { flags: u64 },
}

/// The held keys after `e` for key `key_code`: a first key-down adds
/// it, a key-up removes it, and a modifier change adds or removes the key
/// as its flag is now set or not (keys without a flag are removed).
pub open spec fn keys_after(keys: Set<i64>, e: KeyEvent, key_code: i64) -> Set<i64> {
    match e {
        KeyEvent::KeyDown { autorepeat } => if autorepeat { keys } else { keys.insert(key_code) },
        KeyEvent::KeyUp => keys.remove(key_code),
        KeyEvent::FlagsChanged { flags } => match modifier_flag(key_code) {
            Some(f) => if flags & f == f { keys.insert(key_code) } else { keys.remove(key_code) },
            None => keys.remove(key_code),
        },
    }
}

/// The keys held down, and when a key event was last seen.
pub struct KeyboardState {
    pub pressed_keys: HashSet<i64>,
    /// Monotonic nanoseconds of the last key event.
    pub last_keypress: u64,
}

/// Calls `HashSet::clone`. Claims that the copy holds the same keys.
#[verifier::external_body]
fn clone_keys(s: &HashSet<i64>) -> (r: HashSet<i64>)
    ensures
        r@ == s@,
{
    s.clone()
}

impl KeyboardState {
    /// No key held.
    pub fn new(now: u64) -> (r: KeyboardState)
        ensures
            r.pressed_keys@ == Set::<i64>::empty(),
            r.last_keypress == now,
    {
        KeyboardState { pressed_keys: HashSet::new(), last_keypress: now }
    }

    /// Applies the key event `e` for `key_code` seen at `now`.
    pub fn apply(&mut self, e: KeyEvent, key_code: i64, now: u64)
        ensures
            final(self).pressed_keys@ == keys_after(old(self).pressed_keys@, e, key_code),
            final(self).last_keypress == now,
    {
        self.last_keypress = now;
        match e {
            KeyEvent::KeyDown { autorepeat } => {
                if !autorepeat {
                    self.pressed_keys.insert(key_code);
                }
            },
            KeyEvent::KeyUp => {
                self.pressed_keys.remove(&key_code);
            },
            KeyEvent::FlagsChanged { flags } => {
                match flag_for_modifier(key_code) {
                    Some(f) => {
                        if flags & f == f {
                            self.pressed_keys.insert(key_code);
                        } else {
                            self.pressed_keys.remove(&key_code);
                        }
                    },
                    None => {
                        self.pressed_keys.remove(&key_code);
                    },
                }
            },
        }
    }

    /// A copy of the keys held down.
    pub fn get_pressed_keys(&self) -> (r: HashSet<i64>)
        ensures
            r@ == self.pressed_keys@,
    {
        clone_keys(&self.pressed_keys)
    }

    /// Whether some key is held down.
    pub fn any_pressed(&self) -> (r: bool)
        ensures
            r == (self.pressed_keys@.len() > 0),
    {
        self.pressed_keys.len() > 0
    }
}

/// The modifier keys and their flag bits, over every key code: the shift
/// keys 56 and 60 carry bit 0x20000, the control keys 59 and 62 bit
/// 0x40000, the option keys 58 and 61 bit 0x80000, the command keys 55 and
/// 54 bit 0x100000 and caps lock 57 bit 0x10000; every key code outside
/// 54..=62 carries none.
pub proof fn lemma_modifier_keys(key_code: i64)
    ensures
        (modifier_flag(key_code) == Some(0x0002_0000u64)) <==> (key_code == 56 || key_code == 60),
        (modifier_flag(key_code) == Some(0x0004_0000u64)) <==> (key_code == 59 || key_code == 62),
        (modifier_flag(key_code) == Some(0x0008_0000u64)) <==> (key_code == 58 || key_code == 61),
        (modifier_flag(key_code) == Some(0x0010_0000u64)) <==> (key_code == 55 || key_code == 54),
        (modifier_flag(key_code) == Some(0x0001_0000u64)) <==> key_code == 57,
        (modifier_flag(key_code) is None) <==> !(54 <= key_code <= 62),
{
}

/// What a modifier change does to the held keys: the key that changed is
/// held afterwards exactly when the event's flags have that key's own bit
/// set (option keys 58 and 61 bit 0x80000, shift keys 56 and 60 bit
/// 0x20000, control keys 59 and 62 bit 0x40000, command keys 55 and 54 bit
/// 0x100000, caps lock 57 bit 0x10000), any other key that changed is not
/// held, and every other key is held as before.
pub proof fn lemma_flags_changed(keys: Set<i64>, flags: u64, key_code: i64)
    ensures
        ({
            let after = keys_after(keys, KeyEvent::FlagsChanged { flags }, key_code);
            &&& (key_code == 58 || key_code == 61) ==> (after.contains(key_code) <==> flags & 0x0008_0000u64
                == 0x0008_0000u64)
            &&& (key_code == 56 || key_code == 60) ==> (after.contains(key_code) <==> flags & 0x0002_0000u64
                == 0x0002_0000u64)
            &&& (key_code == 59 || key_code == 62) ==> (after.contains(key_code) <==> flags & 0x0004_0000u64
                == 0x0004_0000u64)
            &&& (key_code == 55 || key_code == 54) ==> (after.contains(key_code) <==> flags & 0x0010_0000u64
                == 0x0010_0000u64)
            &&& key_code == 57 ==> (after.contains(key_code) <==> flags & 0x0001_0000u64 == 0x0001_0000u64)
            &&& !(54 <= key_code <= 62) ==> !after.contains(key_code)
            &&& forall|k: i64| k != key_code ==> (#[trigger] after.contains(k) <==> keys.contains(k))
        }),
{
}

/// A key pressed and released again is no longer held; other keys are
/// as before.
pub proof fn lemma_press_release(keys: Set<i64>, key_code: i64)
    ensures
        keys_after(keys_after(keys, KeyEvent::KeyDown { autorepeat: false }, key_code), KeyEvent::KeyUp, key_code)
            == keys.remove(key_code),
{
    assert(keys.insert(key_code).remove(key_code) =~= keys.remove(key_code));
}

} // verus!
