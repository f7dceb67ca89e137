//! The per-frame input snapshot: pointer position and delta, plus the held
//! and just-pressed mouse-button sets. Refreshed once per frame by the
//! canvas and read by every container during widget processing.

use crate::geometry::Vec2i;
use vstd::prelude::*;

verus! {

/// A set of mouse buttons (held, or edge-triggered "just pressed").
#[derive(Clone, Copy, Debug, PartialEq, Eq, Structural)]
pub struct MouseButtons {
    pub left: bool,
    pub right: bool,
    pub middle: bool,
}

impl MouseButtons {
    pub fn none() -> (b: MouseButtons)
        ensures
            b == (MouseButtons { left: false, right: false, middle: false }),
    {
        MouseButtons { left: false, right: false, middle: false }
    }

    pub fn left_button() -> (b: MouseButtons)
        ensures
            b == (MouseButtons { left: true, right: false, middle: false }),
    {
        MouseButtons { left: true, right: false, middle: false }
    }

    /// True when the primary (left) button is in the set.
    pub fn is_left(&self) -> (r: bool)
        ensures
            r == self.left,
    {
        self.left
    }

    /// True when no button at all is in the set.
    pub open spec fn spec_is_none(self) -> bool {
        !self.left && !self.right && !self.middle
    }

    pub fn is_none(&self) -> (r: bool)
        ensures
            r == self.spec_is_none(),
    {
        !self.left && !self.right && !self.middle
    }
}

/// Snapshot of the input state for one frame.
#[derive(Clone, Copy, Debug, PartialEq, Eq, Structural)]
pub struct Input {
    /// Pointer position in surface coordinates.
    pub mouse_pos: Vec2i,
    /// Pointer movement since the previous frame.
    pub mouse_delta: Vec2i,
    /// Buttons currently held down.
    pub mouse_down: MouseButtons,
    /// Buttons pressed this frame (edge-triggered).
    pub mouse_pressed: MouseButtons,
}

impl Input {
    pub fn new() -> (i: Input)
        ensures
            i == Input::initial(),
    {
        Input {
            mouse_pos: Vec2i { x: 0, y: 0 },
            mouse_delta: Vec2i { x: 0, y: 0 },
            mouse_down: MouseButtons { left: false, right: false, middle: false },
            mouse_pressed: MouseButtons { left: false, right: false, middle: false },
        }
    }

    pub open spec fn initial() -> Input {
        Input {
            mouse_pos: Vec2i { x: 0, y: 0 },
            mouse_delta: Vec2i { x: 0, y: 0 },
            mouse_down: MouseButtons { left: false, right: false, middle: false },
            mouse_pressed: MouseButtons { left: false, right: false, middle: false },
        }
    }
}

} // verus!
