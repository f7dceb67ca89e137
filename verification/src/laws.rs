//! The toolkit's global guarantees, each stated and proved over the spec
//! functions the executable contracts are written in.

use crate::canvas::{lemma_hover_root_topmost, spec_hover_root};
use crate::command::CmdView;
use crate::container::{frame_cmds, spec_clip, spec_mouseover};
use crate::geometry::{max2, overlaps, rect_contains, sat_add, spec_intersect, spec_shrink, Recti, Vec2i};
use crate::options::WidgetOption;
use crate::style::Color;
use crate::window::{spec_begin_window, spec_title_rect, spec_window_body, wid, Window};
use vstd::prelude::*;

verus! {

/// A `begin_window`/`end_window` pair leaves the clip stack exactly as deep
/// as it was before the pair: `begin_window` pushes one rect (its
/// postcondition below) and `end_window` pops one.
pub proof fn lemma_clip_depth_balanced(w0: Window, w1: Window, w2: Window, opt: WidgetOption)
    requires
        w1.main.clip_stack@ == w0.main.clip_stack@.push(
            spec_intersect(spec_begin_window(w0, opt).body, spec_clip(w0.main)),
        ),
        w2.main.clip_stack@ == w1.main.clip_stack@.drop_last(),
    ensures
        w2.main.clip_stack@ == w0.main.clip_stack@,
{
    assert(w2.main.clip_stack@ =~= w0.main.clip_stack@);
}

/// The resize arithmetic never goes below the floor, whatever the delta.
pub proof fn lemma_resize_floor_any_delta(width: int, height: int, dx: int, dy: int)
    ensures
        max2(96, sat_add(width, dx)) >= 96,
        max2(64, sat_add(height, dy)) >= 64,
{
}

/// A resize-drag (the resize handle holds focus with the primary button
/// down) never produces a rect below 96 wide or 64 tall, for any mouse-delta
/// magnitude.
pub proof fn lemma_resize_never_below_floor(w: Window, opt: WidgetOption)
    requires
        !opt.auto_size,
        spec_begin_window(w, opt).focus == Some(wid(w.main, "!resize"@)),
        w.main.input.mouse_down.left,
    ensures
        spec_begin_window(w, opt).rect.width >= 96,
        spec_begin_window(w, opt).rect.height >= 64,
{
}

/// A popup closes on any press while it is not the hover root (the press
/// fell outside it, or on a window above it).
pub proof fn lemma_popup_outside_press_closes(w: Window, opt: WidgetOption)
    requires
        w.ty is Popup,
        !w.main.input.mouse_pressed.spec_is_none(),
        !w.main.in_hover_root,
    ensures
        spec_begin_window(w, opt).activity is Closed,
{
}

/// A press while the popup is the hover root (the press lies inside it and
/// nothing covers it) does not close it: popups are drawn untitled, so no
/// close button can fire either.
pub proof fn lemma_popup_inside_press_stays_open(w: Window, opt: WidgetOption)
    requires
        w.ty is Popup,
        w.activity is Open,
        opt.no_title,
        w.main.in_hover_root,
    ensures
        spec_begin_window(w, opt).activity is Open,
{
}

/// A press inside an open popup that nothing covers makes the popup the
/// hover root of the frame: combined with the previous law, a popup never
/// closes on a press inside its own rect while it is topmost.
pub proof fn lemma_press_inside_topmost_is_hover_root(ws: Seq<Window>, i: int, pos: Vec2i)
    requires
        0 <= i < ws.len(),
        ws[i].activity is Open,
        rect_contains(ws[i].main.rect, pos),
        forall|j: int|
            i < j < ws.len() ==> !((ws[j].activity is Open) && rect_contains(
                ws[j].main.rect,
                pos,
            )),
    ensures
        spec_hover_root(ws, ws.len() as int, pos) == Some(i),
{
    lemma_hover_root_topmost(ws, ws.len() as int, pos);
    match spec_hover_root(ws, ws.len() as int, pos) {
        Some(k) => {
            if k < i {
                assert((ws[i].activity is Open) && rect_contains(ws[i].main.rect, pos));
            }
        },
        None => {
            assert(!((ws[i].activity is Open) && rect_contains(ws[i].main.rect, pos)));
        },
    }
}

/// A frame whose rect does not overlap the clip in force appends no command
/// at all.
pub proof fn lemma_clipped_frame_draws_nothing(clip: Recti, r: Recti, color: Color)
    requires
        !overlaps(r, clip),
    ensures
        frame_cmds(clip, r, color) == Seq::<CmdView>::empty(),
{
}

/// While the title bar holds focus with the primary button down (and the
/// press, if any, lies on the title), `begin_window` translates the window
/// rect by exactly the frame's mouse delta.
pub proof fn lemma_title_drag_moves(w: Window, opt: WidgetOption)
    requires
        !opt.no_title,
        !opt.no_interact,
        w.main.focus == Some(wid(w.main, "!title"@)),
        w.main.input.mouse_down.left,
        spec_mouseover(w.main, spec_title_rect(w.main)) || !w.main.input.mouse_pressed.left,
    ensures
        spec_begin_window(w, opt).rect.x as int == sat_add(
            w.main.rect.x as int,
            w.main.input.mouse_delta.x as int,
        ),
        spec_begin_window(w, opt).rect.y as int == sat_add(
            w.main.rect.y as int,
            w.main.input.mouse_delta.y as int,
        ),
{
}

/// An auto-sized window resizes its rect so that the next frame's layout
/// region is exactly the content accumulated last frame: the chrome (title
/// bar, padding) is preserved around it. Stated away from the coordinate
/// extremes where the saturating arithmetic clamps.
pub proof fn lemma_auto_size_matches_content(w: Window, opt: WidgetOption)
    requires
        opt.auto_size,
        -100000 <= w.main.rect.x <= 100000,
        -100000 <= w.main.rect.y <= 100000,
        0 <= w.main.rect.width <= 100000,
        0 <= w.main.rect.height <= 100000,
        0 <= w.main.content_size.x <= 100000,
        0 <= w.main.content_size.y <= 100000,
        0 <= w.main.style.title_height <= 1000,
        0 <= w.main.style.padding <= 1000,
    ensures
        spec_shrink(
            spec_window_body(
                spec_begin_window(w, opt).rect,
                w.main.style.title_height as int,
                opt,
            ),
            w.main.style.padding as int,
        ).width == w.main.content_size.x,
        spec_shrink(
            spec_window_body(
                spec_begin_window(w, opt).rect,
                w.main.style.title_height as int,
                opt,
            ),
            w.main.style.padding as int,
        ).height == w.main.content_size.y,
{
}

} // verus!
