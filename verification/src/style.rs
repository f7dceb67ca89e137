//! The shared style: a palette of colors indexed by semantic role, plus the
//! metrics (title-bar height, padding, spacing, text cell size) that layout
//! and window chrome are computed from. Immutable during a frame.

use crate::geometry::Vec2i;
use vstd::prelude::*;

verus! {

/// An RGBA color.
#[derive(Clone, Copy, Debug, PartialEq, Eq, Structural)]
pub struct Color {
    pub r: u8,
    pub g: u8,
    pub b: u8,
    pub a: u8,
}

pub fn color(r: u8, g: u8, b: u8, a: u8) -> (c: Color)
    ensures
        c == (Color { r, g, b, a }),
{
    Color { r, g, b, a }
}

/// Semantic color roles a widget draws with; the style maps each to a color.
#[derive(Clone, Copy, Debug, PartialEq, Eq, Structural)]
pub enum ControlColor {
    WindowBG,
    TitleBG,
    TitleText,
    Text,
    Border,
}

/// Palette and metrics shared by every container.
#[derive(Clone, Copy, Debug, PartialEq, Eq, Structural)]
pub struct Style {
    pub window_bg: Color,
    pub title_bg: Color,
    pub title_text: Color,
    pub text: Color,
    pub border: Color,
    /// Height of a window's title bar; also the side of the square close
    /// button and of the resize handle.
    pub title_height: i32,
    /// Inset between a container body and its layout region.
    pub padding: i32,
    /// Gap the layout leaves between successive widget slots.
    pub spacing: i32,
    /// Default widget slot size, used where a row declares no explicit width
    /// or height.
    pub default_size: Vec2i,
    /// Width of one text cell; a run of text is measured as cells.
    pub char_width: i32,
    /// Height of a line of text.
    pub char_height: i32,
}

impl Style {
    /// Metrics a container relies on: non-negative, so chrome and padding
    /// arithmetic behaves as drawn.
    pub open spec fn wf(self) -> bool {
        0 <= self.title_height && 0 <= self.padding && 0 <= self.spacing && 0
            <= self.default_size.x && 0 <= self.default_size.y && 0 <= self.char_width && 0
            <= self.char_height
    }

    /// The palette color for a semantic role.
    pub open spec fn spec_color(self, role: ControlColor) -> Color {
        match role {
            ControlColor::WindowBG => self.window_bg,
            ControlColor::TitleBG => self.title_bg,
            ControlColor::TitleText => self.title_text,
            ControlColor::Text => self.text,
            ControlColor::Border => self.border,
        }
    }

    pub fn color_of(&self, role: ControlColor) -> (c: Color)
        ensures
            c == self.spec_color(role),
    {
        match role {
            ControlColor::WindowBG => self.window_bg,
            ControlColor::TitleBG => self.title_bg,
            ControlColor::TitleText => self.title_text,
            ControlColor::Text => self.text,
            ControlColor::Border => self.border,
        }
    }
}

impl Default for Style {
    /// The stock dark palette with a 24-pixel title bar.
    fn default() -> (s: Style)
        ensures
            s.wf(),
            s.title_height == 24,
            s.padding == 5,
            s.spacing == 4,
            s.default_size == (Vec2i { x: 64, y: 10 }),
            s.char_width == 8,
            s.char_height == 16,
    {
        Style {
            window_bg: Color { r: 50, g: 50, b: 50, a: 255 },
            title_bg: Color { r: 25, g: 25, b: 25, a: 255 },
            title_text: Color { r: 240, g: 240, b: 240, a: 255 },
            text: Color { r: 230, g: 230, b: 230, a: 255 },
            border: Color { r: 25, g: 25, b: 25, a: 255 },
            title_height: 24,
            padding: 5,
            spacing: 4,
            default_size: Vec2i { x: 64, y: 10 },
            char_width: 8,
            char_height: 16,
        }
    }
}

} // verus!
