//! The state of keyboard and mouse, as the window last reported it.

use std::collections::HashMap;
use vstd::prelude::*;

verus! {

/// What the window reports of keyboard and mouse. Keys and buttons are
/// named by numbers that the caller chooses; coordinates are fixed-point.
#[derive(Clone, Copy, Debug, PartialEq, Eq, Structural)]
pub enum InputEvent {
    /// A key went down or up.
    Key { code: u64, pressed: bool },
    /// A mouse button went down or up.
    MouseButton { button: u64, pressed: bool },
    /// The cursor moved to a place in the window.
    CursorMoved { x: i64, y: i64 },
    /// Anything else.
    Other,
}

/// The mathematical value of an `InputManager`.
pub struct InputState {
    /// For each key that was ever reported, whether it was last seen down.
    pub keys: Map<u64, bool>,
    /// For each button that was ever reported, whether it was last seen down.
    pub buttons: Map<u64, bool>,
    /// Where the cursor was last seen.
    pub mouse: (i64, i64),
}

impl InputState {
    /// The state before any report: nothing is down, the cursor is at the
    /// origin.
    pub open spec fn initial() -> InputState {
        InputState { keys: Map::empty(), buttons: Map::empty(), mouse: (0, 0) }
    }

    /// The state after `event`.
    pub open spec fn after(self, event: InputEvent) -> InputState {
        match event {
            InputEvent::Key { code, pressed } => InputState {
                keys: self.keys.insert(code, pressed),
                ..self
            },
            InputEvent::MouseButton { button, pressed } => InputState {
                buttons: self.buttons.insert(button, pressed),
                ..self
            },
            InputEvent::CursorMoved { x, y } => InputState { mouse: (x, y), ..self },
            InputEvent::Other => self,
        }
    }

    /// Whether the key is down: it was reported, and last as pressed.
    pub open spec fn key_down(self, code: u64) -> bool {
        self.keys.contains_key(code) && self.keys[code]
    }

    /// Whether the button is down: it was reported, and last as pressed.
    pub open spec fn button_down(self, button: u64) -> bool {
        self.buttons.contains_key(button) && self.buttons[button]
    }
}

/// Remembers which keys and buttons are down and where the cursor is.
pub struct InputManager {
    keys_pressed: HashMap<u64, bool>,
    mouse_buttons: HashMap<u64, bool>,
    mouse_position: (i64, i64),
}

impl View for InputManager {
    type V = InputState;

    closed spec fn view(&self) -> InputState {
        InputState {
            keys: self.keys_pressed@,
            buttons: self.mouse_buttons@,
            mouse: self.mouse_position,
        }
    }
}

impl InputManager {
    /// A manager that has seen no report.
    pub fn new() -> (m: InputManager)
        ensures
            m@ == InputState::initial(),
    {
        InputManager {
            keys_pressed: HashMap::new(),
            mouse_buttons: HashMap::new(),
            mouse_position: (0, 0),
        }
    }

    /// Takes note of one report.
    pub fn process_window_event(&mut self, event: &InputEvent)
        ensures
            final(self)@ == old(self)@.after(*event),
    {
        broadcast use vstd::std_specs::hash::group_hash_axioms;

        match *event {
            InputEvent::Key { code, pressed } => {
                self.keys_pressed.insert(code, pressed);
            },
            InputEvent::MouseButton { button, pressed } => {
                self.mouse_buttons.insert(button, pressed);
            },
            InputEvent::CursorMoved { x, y } => {
                self.mouse_position = (x, y);
            },
            InputEvent::Other => {},
        }
    }

    /// Whether the key is down.
    pub fn is_key_pressed(&self, key_code: u64) -> (b: bool)
        ensures
            b == self@.key_down(key_code),
    {
        broadcast use vstd::std_specs::hash::group_hash_axioms;

        match self.keys_pressed.get(&key_code) {
            Some(pressed) => *pressed,
            None => false,
        }
    }

    /// Whether the mouse button is down.
    pub fn is_mouse_button_pressed(&self, button: u64) -> (b: bool)
        ensures
            b == self@.button_down(button),
    {
        broadcast use vstd::std_specs::hash::group_hash_axioms;

        match self.mouse_buttons.get(&button) {
            Some(pressed) => *pressed,
            None => false,
        }
    }

    /// Where the cursor was last seen.
    pub fn get_mouse_position(&self) -> (p: (i64, i64))
        ensures
            p == self@.mouse,
    {
        self.mouse_position
    }
}

} // verus!
