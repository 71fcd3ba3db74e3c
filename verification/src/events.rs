//! Raw input events, mouse buttons, and the handler interface that
//! event replay dispatches to.

use vstd::prelude::*;
use crate::touch::TouchPhase;

verus! {

/// A mouse button.
#[derive(Clone, Copy, Debug, PartialEq, Eq, Structural)]
pub enum Button {
    Left,
    Right,
    Middle,
    Unknown,
}

/// Which mouse buttons a per-frame button set holds.
#[derive(Clone, Copy, Debug, PartialEq, Eq, Structural)]
pub struct ButtonSet {
    pub left: bool,
    pub right: bool,
    pub middle: bool,
    pub unknown: bool,
}

impl ButtonSet {
    /// Whether the button is in the set.
    pub open spec fn spec_has(&self, b: Button) -> bool {
        match b {
            Button::Left => self.left,
            Button::Right => self.right,
            Button::Middle => self.middle,
            Button::Unknown => self.unknown,
        }
    }

    pub fn empty() -> (r: ButtonSet)
        ensures
            forall|b: Button| !r.spec_has(b),
    {
        ButtonSet { left: false, right: false, middle: false, unknown: false }
    }

    /// Whether the button is in the set.
    pub fn has(&self, b: Button) -> (r: bool)
        ensures
            r == self.spec_has(b),
    {
        match b {
            Button::Left => self.left,
            Button::Right => self.right,
            Button::Middle => self.middle,
            Button::Unknown => self.unknown,
        }
    }

    /// The set with one button added.
    pub fn with_button(&self, b: Button) -> (r: ButtonSet)
        ensures
            r.spec_has(b),
            forall|b2: Button| b2 != b ==> r.spec_has(b2) == self.spec_has(b2),
    {
        let mut r = *self;
        match b {
            Button::Left => r.left = true,
            Button::Right => r.right = true,
            Button::Middle => r.middle = true,
            Button::Unknown => r.unknown = true,
        }
        r
    }

    /// The set with one button taken out.
    pub fn without_button(&self, b: Button) -> (r: ButtonSet)
        ensures
            !r.spec_has(b),
            forall|b2: Button| b2 != b ==> r.spec_has(b2) == self.spec_has(b2),
    {
        let mut r = *self;
        match b {
            Button::Left => r.left = false,
            Button::Right => r.right = false,
            Button::Middle => r.middle = false,
            Button::Unknown => r.unknown = false,
        }
        r
    }
}

/// One raw input event, as the platform event source delivers it.
#[derive(Clone, Copy, Debug, PartialEq, Eq, Structural)]
pub enum InputEvent {
    KeyDown { key: u64 },
    KeyUp { key: u64 },
    Character { character: char },
    MouseMotion { x: i32, y: i32 },
    MouseWheel { dx: i64, dy: i64 },
    MouseButtonDown { button: Button, x: i32, y: i32 },
    MouseButtonUp { button: Button, x: i32, y: i32 },
    TouchUpdate { id: u64, phase: TouchPhase, x: i32, y: i32 },
    QuitRequested,
}

/// A consumer of the raw event stream. Replay calls `handle` once per
/// recorded event, in arrival order. A handler must not re-enter the
/// context it is being replayed from.
pub trait InputEventHandler {
    fn handle(&mut self, event: InputEvent);
}

} // verus!
