//! The draw-command stream: the ordered sequence of clipped quads, text runs
//! and icons a container accumulates during a frame and a renderer backend
//! replays in order.

use crate::geometry::{Recti, Vec2i};
use crate::style::Color;
use vstd::prelude::*;

verus! {

/// Icons the core itself can emit (the title bar's close box) or that
/// widgets request.
#[derive(Clone, Copy, Debug, PartialEq, Eq, Structural)]
pub enum IconId {
    Close,
    Check,
    Collapsed,
    Expanded,
}

/// One draw operation. A renderer replays a container's commands in order;
/// a `Clip` command narrows every following draw to the given rectangle.
#[derive(Debug)]
pub enum Command {
    /// Set the renderer's scissor rectangle.
    Clip { rect: Recti },
    /// A filled rectangle, already intersected with the clip in force.
    Rect { rect: Recti, color: Color },
    /// A run of text starting at `pos`.
    Text { text: String, pos: Vec2i, color: Color },
    /// An icon stretched over `rect`.
    Icon { icon: IconId, rect: Recti, color: Color },
}

impl Clone for Command {
    /// A cloned command has the same value.
    fn clone(&self) -> (c: Command)
        ensures
            c@ == self@,
    {
        match self {
            Command::Clip { rect } => Command::Clip { rect: *rect },
            Command::Rect { rect, color } => Command::Rect { rect: *rect, color: *color },
            Command::Text { text, pos, color } => Command::Text {
                text: text.clone(),
                pos: *pos,
                color: *color,
            },
            Command::Icon { icon, rect, color } => Command::Icon {
                icon: *icon,
                rect: *rect,
                color: *color,
            },
        }
    }
}

/// The mathematical value of a command: text as a sequence of characters.
pub enum CmdView {
    Clip { rect: Recti },
    Rect { rect: Recti, color: Color },
    Text { text: Seq<char>, pos: Vec2i, color: Color },
    Icon { icon: IconId, rect: Recti, color: Color },
}

impl View for Command {
    type V = CmdView;

    open spec fn view(&self) -> CmdView {
        match self {
            Command::Clip { rect } => CmdView::Clip { rect: *rect },
            Command::Rect { rect, color } => CmdView::Rect { rect: *rect, color: *color },
            Command::Text { text, pos, color } => CmdView::Text {
                text: text@,
                pos: *pos,
                color: *color,
            },
            Command::Icon { icon, rect, color } => CmdView::Icon {
                icon: *icon,
                rect: *rect,
                color: *color,
            },
        }
    }
}

/// The value of a whole command list.
pub open spec fn cmds_view(s: Seq<Command>) -> Seq<CmdView> {
    s.map_values(|c: Command| c@)
}

pub proof fn lemma_cmds_view_push(s: Seq<Command>, c: Command)
    ensures
        cmds_view(s.push(c)) == cmds_view(s).push(c@),
{
    assert(cmds_view(s.push(c)) =~= cmds_view(s).push(c@));
}

} // verus!
