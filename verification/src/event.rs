//! Platform-neutral keyboard input.
use vstd::prelude::*;

use crate::model::BackendEvent;

verus! {

/// Which key was pressed, in a scancode-style abstraction.
#[derive(Debug, Clone, Copy, PartialEq, Eq, Structural)]
pub enum Scancode {
    Char(char),
    Enter,
    Escape,
    Backspace,
    Tab,
    Up,
    Down,
    Left,
    Right,
    Home,
    End,
    PageUp,
    PageDown,
    Delete,
    F(u8),
}

/// Modifier keys held down with a keypress.
#[derive(Debug, Clone, Copy, PartialEq, Eq, Structural)]
pub struct Modifiers {
    pub shift: bool,
    pub ctrl: bool,
    pub alt: bool,
    pub meta: bool,
}

impl Modifiers {
    pub open spec fn is_none(self) -> bool {
        !self.shift && !self.ctrl && !self.alt && !self.meta
    }

    /// No modifier held.
    pub fn none() -> (r: Modifiers)
        ensures
            r.is_none(),
    {
        Modifiers { shift: false, ctrl: false, alt: false, meta: false }
    }
}

/// A keypress together with its modifiers.
#[derive(Debug, Clone, Copy, PartialEq, Eq, Structural)]
pub struct KeyEvent {
    pub scancode: Scancode,
    pub modifiers: Modifiers,
}

/// Everything the application reacts to: keys, server events, clock ticks,
/// and a request to quit.
#[derive(Debug, Clone, PartialEq, Eq)]
pub enum Event {
    Key(KeyEvent),
    Backend(BackendEvent),
    Tick,
    Quit,
}

impl Default for Modifiers {
    fn default() -> (r: Modifiers)
        ensures
            r.is_none(),
    {
        Modifiers::none()
    }
}

} // verus!
