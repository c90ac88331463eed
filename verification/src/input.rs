//! What the surrounding program reports to the rules once per tick.

use vstd::prelude::*;
use crate::geometry::{PixelPos, WindowSize};

verus! {

/// A button on a mouse.
#[derive(Clone, Copy, Debug, PartialEq, Eq, Structural)]
pub enum MouseButton {
    Left,
    Right,
    Middle,
    Other(u16),
}

/// Which way a button went.
#[derive(Clone, Copy, Debug, PartialEq, Eq, Structural)]
pub enum ElementState {
    Pressed,
    Released,
}

/// A change of state of one mouse button.
#[derive(Clone, Copy, Debug, PartialEq, Eq, Structural)]
pub struct MouseButtonInput {
    pub button: MouseButton,
    pub state: ElementState,
}

impl MouseButtonInput {
    /// Whether the event is a press of the left button, the one event that
    /// claims an edge.
    pub open spec fn left_press(self) -> bool {
        self.button == MouseButton::Left && self.state == ElementState::Pressed
    }

    pub fn is_left_press(&self) -> (b: bool)
        ensures
            b == self.left_press(),
    {
        match (self.button, self.state) {
            (MouseButton::Left, ElementState::Pressed) => true,
            _ => false,
        }
    }
}

/// Whether the latest button event of a tick, if there was one, asks to claim
/// the highlighted edge.
pub open spec fn asks_to_claim(click: Option<MouseButtonInput>) -> bool {
    match click {
        Some(event) => event.left_press(),
        None => false,
    }
}

/// The input of one tick: the latest pointer position, if the pointer moved,
/// the extent of the window, and the latest button event, if there was one.
#[derive(Clone, Copy, Debug)]
pub struct TickInput {
    pub cursor: Option<PixelPos>,
    pub window: WindowSize,
    pub click: Option<MouseButtonInput>,
}

} // verus!
