//! The per-window/popup canvas: owns the window rectangle, the clip-rect
//! stack, the draw-command list, the layout stack, the content-size
//! accumulator and the scroll state, and exposes the drawing and hit-testing
//! primitives widgets are built from.

use crate::command::{cmds_view, lemma_cmds_view_push, CmdView, Command, IconId};
use crate::geometry::{
    contains_point, intersect, max2, overlaps, rect_contains, sat_add, sat_sub, spec_intersect,
    spec_shrink, spec_unclipped, unclipped_rect, Recti, Vec2i,
};
use crate::ids::IdManager;
use crate::input::Input;
use crate::layout::LayoutStack;
use crate::options::WidgetOption;
use crate::style::{Color, ControlColor, Style};
use vstd::prelude::*;

verus! {

/// One drawable surface and its retained interaction state. The persistent
/// part (rect, scroll, z-index, content size, focus) survives across frames;
/// the transient part (commands, clip stack, layout stack) is reset by
/// `prepare` each frame.
pub struct Container {
    /// The name the container was created under; drawn as the title.
    pub name: String,
    /// The outer rectangle on the surface.
    pub rect: Recti,
    /// The interior rectangle (outer rect minus chrome), set per frame.
    pub body: Recti,
    /// Stack of active clip rectangles; empty between frames.
    pub clip_stack: Vec<Recti>,
    /// The draw commands accumulated this frame, in emission order.
    pub commands: Vec<Command>,
    /// Stack of layout scopes.
    pub layout: LayoutStack,
    /// Bounding size of the content laid out last frame; feeds auto-sizing.
    pub content_size: Vec2i,
    /// Scroll offset applied to the layout region.
    pub scroll: Vec2i,
    /// Draw order: higher is drawn later, on top.
    pub zindex: i32,
    /// The widget holding focus, if any.
    pub focus: Option<u64>,
    /// The widget under the pointer, if any.
    pub hover: Option<u64>,
    /// Whether this container is the current hover root (the topmost one
    /// under the pointer); set by the frame orchestrator.
    pub in_hover_root: bool,
    /// Shared palette and metrics.
    pub style: Style,
    /// This frame's input snapshot.
    pub input: Input,
    /// Identifier derivation state.
    pub idmngr: IdManager,
}

/// The clip rectangle in force: the top of the clip stack, or an effectively
/// unbounded rectangle while the stack is empty.
pub open spec fn spec_clip(c: Container) -> Recti {
    if c.clip_stack@.len() == 0 {
        spec_unclipped()
    } else {
        c.clip_stack@.last()
    }
}

/// True when the pointer hits `r`: inside the rectangle, inside the clip in
/// force, and this container is the hover root (not occluded by a higher
/// container).
pub open spec fn spec_mouseover(c: Container, r: Recti) -> bool {
    rect_contains(r, c.input.mouse_pos) && rect_contains(spec_clip(c), c.input.mouse_pos)
        && c.in_hover_root
}

/// The hover and focus state after hit-testing control `id` over `r`: the
/// control gains hover when the pointer rests on it with no button held;
/// it gains focus when the primary button is pressed while hovered; focus is
/// lost on a press elsewhere, or on release unless the control holds focus.
pub open spec fn spec_update_control(c: Container, id: u64, r: Recti, opt: WidgetOption) -> (
    Option<u64>,
    Option<u64>,
) {
    if opt.no_interact {
        (c.hover, c.focus)
    } else {
        let mo = spec_mouseover(c, r);
        let hover1 = if mo && !c.input.mouse_down.left {
            Some(id)
        } else {
            c.hover
        };
        let focus1 = if c.focus == Some(id) {
            let f = if c.input.mouse_pressed.left && !mo {
                None
            } else {
                c.focus
            };
            if !c.input.mouse_down.left && !opt.hold_focus {
                None
            } else {
                f
            }
        } else {
            c.focus
        };
        if hover1 == Some(id) {
            if c.input.mouse_pressed.left {
                (hover1, Some(id))
            } else if !mo {
                (None, focus1)
            } else {
                (hover1, focus1)
            }
        } else {
            (hover1, focus1)
        }
    }
}

/// True when `r` lies entirely inside `clip`, so drawing it needs no scissor
/// change.
pub open spec fn fully_inside(r: Recti, clip: Recti) -> bool {
    clip.x <= r.x && r.x + r.width <= clip.x + clip.width && clip.y <= r.y && r.y + r.height
        <= clip.y + clip.height
}

/// The commands `draw_frame` appends: one rectangle already intersected with
/// the clip in force, or nothing when the intersection has no area.
pub open spec fn frame_cmds(clip: Recti, r: Recti, color: Color) -> Seq<CmdView> {
    if overlaps(r, clip) {
        seq![CmdView::Rect { rect: spec_intersect(r, clip), color }]
    } else {
        Seq::empty()
    }
}

/// The commands `draw_icon` appends: nothing when fully clipped away; the
/// icon alone when fully visible; otherwise the icon bracketed by scissor
/// commands.
pub open spec fn icon_cmds(clip: Recti, icon: IconId, r: Recti, color: Color) -> Seq<CmdView> {
    if !overlaps(r, clip) {
        Seq::empty()
    } else if fully_inside(r, clip) {
        seq![CmdView::Icon { icon, rect: r, color }]
    } else {
        seq![
            CmdView::Clip { rect: clip },
            CmdView::Icon { icon, rect: r, color },
            CmdView::Clip { rect: spec_unclipped() },
        ]
    }
}

/// Width of a run of text: one cell per character.
pub open spec fn spec_text_width(style: Style, s: Seq<char>) -> int {
    crate::geometry::i32_clamp(crate::geometry::i32_clamp(s.len() as int) * style.char_width)
}

/// Where a control's text starts inside `r`: vertically centered; left with
/// padding by default, centered or right-aligned with padding per options.
pub open spec fn spec_text_pos(style: Style, s: Seq<char>, r: Recti, opt: WidgetOption) -> Vec2i {
    let w = spec_text_width(style, s);
    let y = sat_add(r.y as int, max2(0, sat_sub(r.height as int, style.char_height as int)) / 2);
    let x = if opt.align_center {
        sat_add(r.x as int, max2(0, sat_sub(r.width as int, w)) / 2)
    } else if opt.align_right {
        sat_sub(sat_sub(sat_add(r.x as int, r.width as int), w), style.padding as int)
    } else {
        sat_add(r.x as int, style.padding as int)
    };
    Vec2i { x: x as i32, y: y as i32 }
}

/// The rectangle a run of text occupies.
pub open spec fn spec_text_rect(style: Style, s: Seq<char>, r: Recti, opt: WidgetOption) -> Recti {
    let pos = spec_text_pos(style, s, r, opt);
    Recti { x: pos.x, y: pos.y, width: spec_text_width(style, s) as i32, height: style.char_height }
}

/// The commands `draw_control_text` appends, mirroring `icon_cmds`.
pub open spec fn text_cmds(
    clip: Recti,
    style: Style,
    s: Seq<char>,
    r: Recti,
    opt: WidgetOption,
    color: Color,
) -> Seq<CmdView> {
    let tr = spec_text_rect(style, s, r, opt);
    let pos = spec_text_pos(style, s, r, opt);
    if !overlaps(tr, clip) {
        Seq::empty()
    } else if fully_inside(tr, clip) {
        seq![CmdView::Text { text: s, pos, color }]
    } else {
        seq![
            CmdView::Clip { rect: clip },
            CmdView::Text { text: s, pos, color },
            CmdView::Clip { rect: spec_unclipped() },
        ]
    }
}

/// The layout region pushed for a container body: the body inset by the
/// style padding, shifted by the scroll offset.
pub open spec fn spec_body_layout(body: Recti, padding: int, scroll: Vec2i) -> Recti {
    let p = spec_shrink(body, padding);
    Recti {
        x: sat_sub(p.x as int, scroll.x as int) as i32,
        y: sat_sub(p.y as int, scroll.y as int) as i32,
        width: p.width,
        height: p.height,
    }
}

impl Container {
    pub open spec fn wf(self) -> bool {
        self.style.wf() && self.idmngr.wf()
    }

    /// A fresh container under `name`: zero rect, everything empty, nothing
    /// focused or hovered.
    pub fn new(name: &str, style: &Style, input: Input) -> (c: Container)
        requires
            style.wf(),
        ensures
            c.wf(),
            c.name@ == name@,
            c.rect == (Recti { x: 0, y: 0, width: 0, height: 0 }),
            c.body == (Recti { x: 0, y: 0, width: 0, height: 0 }),
            c.clip_stack@.len() == 0,
            c.commands@.len() == 0,
            c.layout.frames@.len() == 0,
            c.content_size == (Vec2i { x: 0, y: 0 }),
            c.scroll == (Vec2i { x: 0, y: 0 }),
            c.zindex == 0,
            c.focus is None,
            c.hover is None,
            !c.in_hover_root,
            c.style == *style,
            c.input == input,
            c.idmngr.stack@.len() == 0,
    {
        Container {
            name: String::from_str(name),
            rect: Recti { x: 0, y: 0, width: 0, height: 0 },
            body: Recti { x: 0, y: 0, width: 0, height: 0 },
            clip_stack: Vec::new(),
            commands: Vec::new(),
            layout: LayoutStack::new(),
            content_size: Vec2i { x: 0, y: 0 },
            scroll: Vec2i { x: 0, y: 0 },
            zindex: 0,
            focus: None,
            hover: None,
            in_hover_root: false,
            style: *style,
            input,
            idmngr: IdManager::new(),
        }
    }

    /// The clip rectangle currently in force.
    pub fn get_clip_rect(&self) -> (r: Recti)
        ensures
            r == spec_clip(*self),
    {
        if self.clip_stack.len() == 0 {
            unclipped_rect()
        } else {
            self.clip_stack[self.clip_stack.len() - 1]
        }
    }

    /// Push `r`, narrowed by the clip already in force, as the new clip.
    pub fn push_clip_rect(&mut self, r: Recti)
        ensures
            final(self).clip_stack@ == old(self).clip_stack@.push(
                spec_intersect(r, spec_clip(*old(self))),
            ),
            *final(self) == (Container { clip_stack: final(self).clip_stack, ..*old(self) }),
    {
        let clip = self.get_clip_rect();
        let narrowed = intersect(&r, &clip);
        self.clip_stack.push(narrowed);
    }

    /// Pop the innermost clip rectangle. Popping an empty stack is a
    /// programming error (an unbalanced push/pop pairing), so callers must
    /// know the stack is non-empty.
    pub fn pop_clip_rect(&mut self)
        requires
            old(self).clip_stack@.len() > 0,
        ensures
            final(self).clip_stack@ == old(self).clip_stack@.drop_last(),
            *final(self) == (Container { clip_stack: final(self).clip_stack, ..*old(self) }),
    {
        let _ = self.clip_stack.pop();
        proof {
            assert(self.clip_stack@ =~= old(self).clip_stack@.drop_last());
        }
    }

    /// Draw a filled rectangle in the palette color of `role`, clipped to
    /// the clip in force; a clipped-away rectangle appends nothing.
    pub fn draw_frame(&mut self, r: Recti, role: ControlColor)
        ensures
            cmds_view(final(self).commands@) == cmds_view(old(self).commands@) + frame_cmds(
                spec_clip(*old(self)),
                r,
                old(self).style.spec_color(role),
            ),
            *final(self) == (Container { commands: final(self).commands, ..*old(self) }),
    {
        let clip = self.get_clip_rect();
        let inter = intersect(&r, &clip);
        if inter.width > 0 && inter.height > 0 {
            let color = self.style.color_of(role);
            let cmd = Command::Rect { rect: inter, color };
            proof {
                lemma_cmds_view_push(self.commands@, cmd);
            }
            self.commands.push(cmd);
            proof {
                assert(cmds_view(self.commands@) =~= cmds_view(old(self).commands@) + frame_cmds(
                    spec_clip(*old(self)),
                    r,
                    old(self).style.spec_color(role),
                ));
            }
        } else {
            proof {
                assert(cmds_view(self.commands@) =~= cmds_view(old(self).commands@) + frame_cmds(
                    spec_clip(*old(self)),
                    r,
                    old(self).style.spec_color(role),
                ));
            }
        }
    }

    /// Draw an icon over `r`; when `r` pokes out of the clip in force the
    /// icon is bracketed by scissor commands, and when it lies fully outside
    /// nothing is appended.
    pub fn draw_icon(&mut self, icon: IconId, r: Recti, color: Color)
        ensures
            cmds_view(final(self).commands@) == cmds_view(old(self).commands@) + icon_cmds(
                spec_clip(*old(self)),
                icon,
                r,
                color,
            ),
            *final(self) == (Container { commands: final(self).commands, ..*old(self) }),
    {
        let clip = self.get_clip_rect();
        let inter = intersect(&r, &clip);
        if inter.width > 0 && inter.height > 0 {
            let fully = clip.x <= r.x && r.x as i64 + r.width as i64 <= clip.x as i64 + clip.width
                as i64 && clip.y <= r.y && r.y as i64 + r.height as i64 <= clip.y as i64
                + clip.height as i64;
            if !fully {
                let c0 = Command::Clip { rect: clip };
                proof {
                    lemma_cmds_view_push(self.commands@, c0);
                }
                self.commands.push(c0);
            }
            let c1 = Command::Icon { icon, rect: r, color };
            proof {
                lemma_cmds_view_push(self.commands@, c1);
            }
            self.commands.push(c1);
            if !fully {
                let c2 = Command::Clip { rect: unclipped_rect() };
                proof {
                    lemma_cmds_view_push(self.commands@, c2);
                }
                self.commands.push(c2);
            }
            proof {
                assert(cmds_view(self.commands@) =~= cmds_view(old(self).commands@) + icon_cmds(
                    spec_clip(*old(self)),
                    icon,
                    r,
                    color,
                ));
            }
        } else {
            proof {
                assert(cmds_view(self.commands@) =~= cmds_view(old(self).commands@) + icon_cmds(
                    spec_clip(*old(self)),
                    icon,
                    r,
                    color,
                ));
            }
        }
    }

    /// Width in pixels of a run of text under this container's style.
    pub fn text_width(&self, text: &str) -> (w: i32)
        ensures
            w as int == spec_text_width(self.style, text@),
    {
        let n: usize = text.unicode_len();
        let n32: i32 = if n > i32::MAX as usize {
            i32::MAX
        } else {
            n as i32
        };
        let cw = self.style.char_width;
        proof {
            assert((n32 as int) * (cw as int) <= 0x4000_0000_0000_0000 && (n32 as int) * (cw as int)
                >= -0x4000_0000_0000_0000) by (nonlinear_arith)
                requires
                    -0x8000_0000 <= n32 as int <= 0x7fff_ffff,
                    -0x8000_0000 <= cw as int <= 0x7fff_ffff,
            ;
        }
        let p: i128 = n32 as i128 * cw as i128;
        if p > i32::MAX as i128 {
            i32::MAX
        } else if p < i32::MIN as i128 {
            i32::MIN
        } else {
            p as i32
        }
    }

    /// Draw a control's text inside `r` (aligned per the options) in the
    /// palette color of `role`, with the same clipping rule as `draw_icon`.
    pub fn draw_control_text(&mut self, text: &str, r: Recti, role: ControlColor, opt: WidgetOption)
        ensures
            cmds_view(final(self).commands@) == cmds_view(old(self).commands@) + text_cmds(
                spec_clip(*old(self)),
                old(self).style,
                text@,
                r,
                opt,
                old(self).style.spec_color(role),
            ),
            *final(self) == (Container { commands: final(self).commands, ..*old(self) }),
    {
        let w = self.text_width(text);
        let ch = self.style.char_height;
        let slack_y = crate::geometry::max_i32(0, crate::geometry::sub_sat(r.height, ch));
        let y = crate::geometry::add_sat(r.y, slack_y / 2);
        let x: i32 = if opt.align_center {
            let slack_x = crate::geometry::max_i32(0, crate::geometry::sub_sat(r.width, w));
            crate::geometry::add_sat(r.x, slack_x / 2)
        } else if opt.align_right {
            crate::geometry::sub_sat(
                crate::geometry::sub_sat(crate::geometry::add_sat(r.x, r.width), w),
                self.style.padding,
            )
        } else {
            crate::geometry::add_sat(r.x, self.style.padding)
        };
        let pos = Vec2i { x, y };
        let trect = Recti { x: pos.x, y: pos.y, width: w, height: ch };
        let color = self.style.color_of(role);
        let clip = self.get_clip_rect();
        let inter = intersect(&trect, &clip);
        if inter.width > 0 && inter.height > 0 {
            let fully = clip.x <= trect.x && trect.x as i64 + trect.width as i64 <= clip.x as i64
                + clip.width as i64 && clip.y <= trect.y && trect.y as i64 + trect.height as i64
                <= clip.y as i64 + clip.height as i64;
            if !fully {
                let c0 = Command::Clip { rect: clip };
                proof {
                    lemma_cmds_view_push(self.commands@, c0);
                }
                self.commands.push(c0);
            }
            let c1 = Command::Text { text: String::from_str(text), pos, color };
            proof {
                lemma_cmds_view_push(self.commands@, c1);
            }
            self.commands.push(c1);
            if !fully {
                let c2 = Command::Clip { rect: unclipped_rect() };
                proof {
                    lemma_cmds_view_push(self.commands@, c2);
                }
                self.commands.push(c2);
            }
            proof {
                assert(cmds_view(self.commands@) =~= cmds_view(old(self).commands@) + text_cmds(
                    spec_clip(*old(self)),
                    old(self).style,
                    text@,
                    r,
                    opt,
                    old(self).style.spec_color(role),
                ));
            }
        } else {
            proof {
                assert(cmds_view(self.commands@) =~= cmds_view(old(self).commands@) + text_cmds(
                    spec_clip(*old(self)),
                    old(self).style,
                    text@,
                    r,
                    opt,
                    old(self).style.spec_color(role),
                ));
            }
        }
    }

    /// The single hit-testing primitive: updates hover and focus for control
    /// `id` over `r` from this frame's input. This is the only place hover
    /// and focus transition.
    pub fn update_control(&mut self, id: u64, r: Recti, opt: WidgetOption)
        ensures
            (final(self).hover, final(self).focus) == spec_update_control(*old(self), id, r, opt),
            *final(self) == (Container {
                hover: final(self).hover,
                focus: final(self).focus,
                ..*old(self)
            }),
    {
        if opt.is_not_interactive() {
            return ;
        }
        let clip = self.get_clip_rect();
        let mo = contains_point(&r, self.input.mouse_pos) && contains_point(
            &clip,
            self.input.mouse_pos,
        ) && self.in_hover_root;
        if mo && !self.input.mouse_down.is_left() {
            self.hover = Some(id);
        }
        if self.focus == Some(id) {
            if self.input.mouse_pressed.is_left() && !mo {
                self.focus = None;
            }
            if !self.input.mouse_down.is_left() && !opt.is_holding_focus() {
                self.focus = None;
            }
        }
        if self.hover == Some(id) {
            if self.input.mouse_pressed.is_left() {
                self.focus = Some(id);
            } else if !mo {
                self.hover = None;
            }
        }
    }

    /// Record `body` as the interior rectangle and open the initial layout
    /// scope over it, inset by the style padding and shifted by the scroll
    /// offset.
    pub fn push_container_body(&mut self, body: Recti, opt: WidgetOption)
        requires
            old(self).style.wf(),
        ensures
            final(self).body == body,
            final(self).layout.frames@.len() == old(self).layout.frames@.len() + 1,
            final(self).layout.frames@.drop_last() == old(self).layout.frames@,
            final(self).layout.frames@.last().body == spec_body_layout(
                body,
                old(self).style.padding as int,
                old(self).scroll,
            ),
            final(self).layout.frames@.last().position == (Vec2i { x: 0, y: 0 }),
            final(self).layout.frames@.last().row_widths@.len() == 0,
            final(self).layout.frames@.last().row_index == 0,
            final(self).layout.frames@.last().row_height == 0,
            final(self).layout.frames@.last().next_row_y == 0,
            final(self).layout.frames@.last().max == (Vec2i {
                x: spec_body_layout(body, old(self).style.padding as int, old(self).scroll).x,
                y: spec_body_layout(body, old(self).style.padding as int, old(self).scroll).y,
            }),
            *final(self) == (Container {
                body,
                layout: final(self).layout,
                ..*old(self)
            }),
    {
        let padded = crate::geometry::shrink(&body, self.style.padding);
        self.layout.push_layout(padded, self.scroll);
        self.body = body;
    }

    /// Hand out the next widget slot from the innermost layout scope.
    pub fn layout_next(&mut self) -> (r: Recti)
        requires
            old(self).layout.frames@.len() > 0,
            old(self).style.wf(),
        ensures
            r == crate::layout::spec_slot(
                old(self).layout.frames@.last(),
                old(self).style.default_size,
            ),
            final(self).layout.frames@.len() == old(self).layout.frames@.len(),
            final(self).layout.frames@.drop_last() == old(self).layout.frames@.drop_last(),
            final(self).layout.frames@.last() == crate::layout::spec_advance(
                old(self).layout.frames@.last(),
                r,
                old(self).style.spacing as int,
            ),
            *final(self) == (Container { layout: final(self).layout, ..*old(self) }),
    {
        self.layout.next(self.style.default_size, self.style.spacing)
    }

    /// Declare the columns of the next layout row.
    pub fn layout_row(&mut self, widths: Vec<i32>, height: i32)
        requires
            old(self).layout.frames@.len() > 0,
        ensures
            final(self).layout.frames@.len() == old(self).layout.frames@.len(),
            final(self).layout.frames@.drop_last() == old(self).layout.frames@.drop_last(),
            final(self).layout.frames@.last() == (crate::layout::LayoutFrame {
                row_widths: widths,
                row_index: 0,
                row_height: height,
                position: (Vec2i { x: 0, y: old(self).layout.frames@.last().next_row_y }),
                ..old(self).layout.frames@.last()
            }),
            *final(self) == (Container { layout: final(self).layout, ..*old(self) }),
    {
        self.layout.row(widths, height)
    }

    /// Reset the transient per-frame state (commands, layout scopes); the
    /// persistent state (rect, scroll, z-index, content size, focus, hover)
    /// survives untouched.
    pub fn prepare(&mut self)
        ensures
            final(self).commands@.len() == 0,
            final(self).layout.frames@.len() == 0,
            *final(self) == (Container {
                commands: final(self).commands,
                layout: final(self).layout,
                ..*old(self)
            }),
    {
        self.commands = Vec::new();
        self.layout = LayoutStack::new();
    }

    /// Close the frame's bookkeeping: record the bounding size of the content
    /// laid out this frame (consumed by auto-sizing next frame) and pop the
    /// body's layout scope.
    pub fn finish(&mut self)
        requires
            old(self).layout.frames@.len() > 0,
        ensures
            final(self).content_size == (Vec2i {
                x: sat_sub(
                    old(self).layout.frames@.last().max.x as int,
                    old(self).layout.frames@.last().body.x as int,
                ) as i32,
                y: sat_sub(
                    old(self).layout.frames@.last().max.y as int,
                    old(self).layout.frames@.last().body.y as int,
                ) as i32,
            }),
            final(self).layout.frames@ == old(self).layout.frames@.drop_last(),
            *final(self) == (Container {
                content_size: final(self).content_size,
                layout: final(self).layout,
                ..*old(self)
            }),
    {
        let bx: i32;
        let by: i32;
        let mx: i32;
        let my: i32;
        {
            let top = self.layout.top();
            bx = top.body.x;
            by = top.body.y;
            mx = top.max.x;
            my = top.max.y;
        }
        self.layout.pop();
        self.content_size = Vec2i {
            x: crate::geometry::sub_sat(mx, bx),
            y: crate::geometry::sub_sat(my, by),
        };
    }

    /// Replay this frame's commands into `out`, in emission order.
    pub fn render(&self, out: &mut Vec<Command>)
        ensures
            cmds_view(final(out)@) == cmds_view(old(out)@) + cmds_view(self.commands@),
    {
        let n = self.commands.len();
        let mut i: usize = 0;
        while i < n
            invariant
                n == self.commands@.len(),
                0 <= i <= n,
                cmds_view(out@) == cmds_view(old(out)@) + cmds_view(self.commands@.take(i as int)),
            decreases n - i,
        {
            let cmd = self.commands[i].clone();
            proof {
                lemma_cmds_view_push(out@, cmd);
                assert(cmds_view(self.commands@.take(i + 1)) =~= cmds_view(
                    self.commands@.take(i as int),
                ).push(self.commands@[i as int]@));
            }
            out.push(cmd);
            i = i + 1;
        }
        proof {
            assert(self.commands@.take(n as int) =~= self.commands@);
        }
    }

    /// Set this frame's input snapshot (the orchestrator refreshes it once
    /// per frame, before any window processes input).
    pub fn set_input(&mut self, input: Input)
        ensures
            *final(self) == (Container { input, ..*old(self) }),
    {
        self.input = input;
    }

    /// Mark whether this container is the current hover root.
    pub fn set_in_hover_root(&mut self, flag: bool)
        ensures
            *final(self) == (Container { in_hover_root: flag, ..*old(self) }),
    {
        self.in_hover_root = flag;
    }

    /// Set the draw order; the orchestrator raises a window by giving it a
    /// z-index above every other.
    pub fn set_zindex(&mut self, z: i32)
        ensures
            *final(self) == (Container { zindex: z, ..*old(self) }),
    {
        self.zindex = z;
    }
}

} // verus!
