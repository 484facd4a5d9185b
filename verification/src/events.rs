use vstd::prelude::*;

use crate::virtual_key::VirtualKey;

verus! {

/// The scan code that Windows reports with a key event.
pub type WindowsScanCode = u16;

/// The state of a key or mouse button.
#[derive(Debug, Clone, Copy, PartialEq, Eq, Structural, Hash)]
pub enum KeyState {
    Pressed,
    Released,
}

/// A change of the state of a key or mouse button.
#[derive(Debug, Clone, Copy, PartialEq, Eq, Structural)]
pub struct KeyEvent {
    pub key: VirtualKey,
    pub state: KeyState,
}

/// A movement of the mouse wheel, in wheel units: one notch is 120 units.
#[derive(Debug, Clone, Copy, PartialEq, Eq, Structural)]
pub enum ScrollDirection {
    Horizontal(i16),
    Vertical(i16),
}

/// An input event seen by the system hook.
#[derive(Debug, Clone, Copy, PartialEq, Eq, Structural)]
pub enum InputEvent {
    /// A key was pressed or released.
    KeyboardKeyEvent(VirtualKey, WindowsScanCode, KeyState),
    /// A mouse button was pressed or released.
    MouseButtonEvent(VirtualKey, KeyState),
    /// The mouse wheel moved.
    MouseWheelEvent(ScrollDirection),
    /// The mouse moved; the coordinates are the new position, or, once the
    /// hook has captured the input, the movement.
    MouseMoveEvent(i32, i32),
}

/// An input that should be simulated on the local machine.
#[derive(Debug, Clone, Copy, PartialEq, Eq)]
pub enum Input<'a> {
    /// Press or release a single key.
    KeyboardKeyInput(VirtualKey, KeyState),
    /// Type the characters of a string.
    StringInput(&'a str),
    /// Press or release a mouse button.
    MouseButtonInput(VirtualKey, KeyState),
    /// Move the scroll wheel.
    MouseScrollInput(ScrollDirection),
    /// Move the mouse by an offset in pixels.
    RelativeMouseMoveInput(i32, i32),
    /// Move the mouse to a position in pixels.
    AbsoluteMouseMoveInput(i32, i32),
}

/// What the system hook should do with an event after the callback saw it.
#[derive(Debug, Clone, Copy, PartialEq, Eq, Structural)]
pub enum HookAction {
    /// Let the event through to the rest of the system.
    Continue,
    /// Swallow the event.
    Block,
}

impl InputEvent {
    /// The key event that this input event carries, if any.
    pub open spec fn spec_to_key_event(self) -> Option<KeyEvent> {
        match self {
            InputEvent::KeyboardKeyEvent(key, _, state) => Some(KeyEvent { key, state }),
            InputEvent::MouseButtonEvent(key, state) => Some(KeyEvent { key, state }),
            _ => None,
        }
    }

    /// Returns the key and its state for keyboard and mouse button events,
    /// and `None` for wheel and movement events.
    pub fn to_key_event(&self) -> (r: Option<KeyEvent>)
        ensures
            r == self.spec_to_key_event(),
    {
        match self {
            InputEvent::KeyboardKeyEvent(key, _, state) => Some(KeyEvent { key: *key, state: *state }),
            InputEvent::MouseButtonEvent(key, state) => Some(KeyEvent { key: *key, state: *state }),
            _ => None,
        }
    }
}

} // verus!
