//! Per-widget and per-window option flags: which chrome a window draws,
//! whether it auto-sizes, and how a control interacts and aligns its text.

use vstd::prelude::*;

verus! {

/// Option flags handed to `begin_window` and to individual controls.
#[derive(Clone, Copy, Debug, PartialEq, Eq, Structural)]
pub struct WidgetOption {
    /// Skip the window background frame.
    pub no_frame: bool,
    /// Skip the title bar (and with it the drag region and close button).
    pub no_title: bool,
    /// Skip the close button of a titled window.
    pub no_close: bool,
    /// Derive the window size from the previous frame's content instead of
    /// offering a resize handle.
    pub auto_size: bool,
    /// The control is inert: hit-testing never touches hover or focus.
    pub no_interact: bool,
    /// Keep focus on the control while the button is up (drag sources).
    pub hold_focus: bool,
    /// Center the control's text.
    pub align_center: bool,
    /// Right-align the control's text.
    pub align_right: bool,
}

impl WidgetOption {
    pub open spec fn spec_none() -> WidgetOption {
        WidgetOption {
            no_frame: false,
            no_title: false,
            no_close: false,
            auto_size: false,
            no_interact: false,
            hold_focus: false,
            align_center: false,
            align_right: false,
        }
    }

    /// No flag set: full chrome, interactive, left-aligned text.
    pub fn none() -> (o: WidgetOption)
        ensures
            o == WidgetOption::spec_none(),
    {
        WidgetOption {
            no_frame: false,
            no_title: false,
            no_close: false,
            auto_size: false,
            no_interact: false,
            hold_focus: false,
            align_center: false,
            align_right: false,
        }
    }

    /// The flag set a popup is drawn with: the background frame is kept, but
    /// there is no title bar and no resize handle; the rect follows the
    /// content.
    pub fn popup_options() -> (o: WidgetOption)
        ensures
            o == (WidgetOption { no_title: true, auto_size: true, ..WidgetOption::spec_none() }),
    {
        WidgetOption {
            no_frame: false,
            no_title: true,
            no_close: false,
            auto_size: true,
            no_interact: false,
            hold_focus: false,
            align_center: false,
            align_right: false,
        }
    }

    pub fn has_no_frame(&self) -> (r: bool)
        ensures
            r == self.no_frame,
    {
        self.no_frame
    }

    pub fn has_no_title(&self) -> (r: bool)
        ensures
            r == self.no_title,
    {
        self.no_title
    }

    pub fn has_no_close(&self) -> (r: bool)
        ensures
            r == self.no_close,
    {
        self.no_close
    }

    pub fn is_auto_sizing(&self) -> (r: bool)
        ensures
            r == self.auto_size,
    {
        self.auto_size
    }

    pub fn is_not_interactive(&self) -> (r: bool)
        ensures
            r == self.no_interact,
    {
        self.no_interact
    }

    pub fn is_holding_focus(&self) -> (r: bool)
        ensures
            r == self.hold_focus,
    {
        self.hold_focus
    }

    pub fn with_no_frame(self) -> (o: WidgetOption)
        ensures
            o == (WidgetOption { no_frame: true, ..self }),
    {
        WidgetOption { no_frame: true, ..self }
    }

    pub fn with_no_title(self) -> (o: WidgetOption)
        ensures
            o == (WidgetOption { no_title: true, ..self }),
    {
        WidgetOption { no_title: true, ..self }
    }

    pub fn with_no_close(self) -> (o: WidgetOption)
        ensures
            o == (WidgetOption { no_close: true, ..self }),
    {
        WidgetOption { no_close: true, ..self }
    }

    pub fn with_auto_size(self) -> (o: WidgetOption)
        ensures
            o == (WidgetOption { auto_size: true, ..self }),
    {
        WidgetOption { auto_size: true, ..self }
    }

    pub fn with_no_interact(self) -> (o: WidgetOption)
        ensures
            o == (WidgetOption { no_interact: true, ..self }),
    {
        WidgetOption { no_interact: true, ..self }
    }

    pub fn with_hold_focus(self) -> (o: WidgetOption)
        ensures
            o == (WidgetOption { hold_focus: true, ..self }),
    {
        WidgetOption { hold_focus: true, ..self }
    }

    pub fn with_align_center(self) -> (o: WidgetOption)
        ensures
            o == (WidgetOption { align_center: true, ..self }),
    {
        WidgetOption { align_center: true, ..self }
    }

    pub fn with_align_right(self) -> (o: WidgetOption)
        ensures
            o == (WidgetOption { align_right: true, ..self }),
    {
        WidgetOption { align_right: true, ..self }
    }
}

} // verus!
