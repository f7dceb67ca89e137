//! The window/popup state machine: wraps a container with open/closed
//! activity and drives the per-frame begin/end lifecycle — title bar,
//! drag-to-move, close button, drag-to-resize with floor bounds, auto-size
//! reconciliation, and popup dismissal on an outside press.

use crate::command::{cmds_view, CmdView, IconId};
use crate::container::{
    frame_cmds, icon_cmds, spec_body_layout, spec_clip, spec_update_control, text_cmds, Container,
};
use crate::geometry::{max2, sat_add, sat_sub, spec_intersect, Recti, Vec2i};
use crate::ids::id_of;
use crate::input::Input;
use crate::options::WidgetOption;
use crate::style::{ControlColor, Style};
use vstd::prelude::*;

verus! {

/// Whether a window is currently drawn and interactive.
#[derive(Clone, Copy, Debug, PartialEq, Eq, Structural)]
pub enum Activity {
    Open,
    Closed,
}

/// Regular window or popup; a popup additionally dismisses itself on any
/// press outside it.
#[derive(Clone, Copy, Debug, PartialEq, Eq, Structural)]
pub enum Type {
    Window,
    Popup,
}

/// A window or popup: one container plus its kind and activity.
pub struct Window {
    pub ty: Type,
    pub activity: Activity,
    pub main: Container,
}

/// The identifier a window's chrome control derives from its label under
/// the container's current seed.
pub open spec fn wid(c: Container, label: Seq<char>) -> u64 {
    id_of(c.idmngr.seed(), label) as u64
}

/// Hover/focus hit-testing outcome starting from explicit hover and focus
/// values (the container's other inputs — pointer, clip, hover root — taken
/// from `c`).
pub open spec fn uc2(
    c: Container,
    h: Option<u64>,
    f: Option<u64>,
    id: u64,
    r: Recti,
    opt: WidgetOption,
) -> (Option<u64>, Option<u64>) {
    spec_update_control(Container { hover: h, focus: f, ..c }, id, r, opt)
}

/// The title bar: the top strip of the window rect, one title-height tall.
pub open spec fn spec_title_rect(c: Container) -> Recti {
    Recti { x: c.rect.x, y: c.rect.y, width: c.rect.width, height: c.style.title_height }
}

/// The close button: the square at the right end of the title bar, with the
/// title bar's height for both of its sides.
pub open spec fn spec_close_rect(c: Container) -> Recti {
    let tr = spec_title_rect(c);
    Recti {
        x: sat_sub(sat_add(tr.x as int, tr.width as int), tr.height as int) as i32,
        y: tr.y,
        width: tr.height,
        height: tr.height,
    }
}

/// The resize handle: the square in the bottom-right corner of the entry
/// rect `r0`, with the title height for its side.
pub open spec fn spec_resize_rect(r0: Recti, sz: int) -> Recti {
    Recti {
        x: sat_sub(sat_add(r0.x as int, r0.width as int), sz) as i32,
        y: sat_sub(sat_add(r0.y as int, r0.height as int), sz) as i32,
        width: sz as i32,
        height: sz as i32,
    }
}

/// The interior body of a window rect: the rect less the title bar, or the
/// whole rect for an untitled window.
pub open spec fn spec_window_body(rect: Recti, th: int, opt: WidgetOption) -> Recti {
    if opt.no_title {
        rect
    } else {
        Recti {
            x: rect.x,
            y: sat_add(rect.y as int, th) as i32,
            width: rect.width,
            height: sat_sub(rect.height as int, th) as i32,
        }
    }
}

/// What the title-bar pass decides: the (possibly dragged) rect, the
/// hover/focus state after the title and close-button hit tests, and the
/// activity after the close button.
pub struct TitleOut {
    pub rect: Recti,
    pub hover: Option<u64>,
    pub focus: Option<u64>,
    pub activity: Activity,
}

/// The title-bar pass over the window state at entry: hit-test the title
/// strip, translate the rect by the mouse delta while the title holds focus
/// with the primary button down, then hit-test the close button and close on
/// a primary press while it holds focus.
pub open spec fn spec_title_phase(w: Window, opt: WidgetOption) -> TitleOut {
    let c = w.main;
    let r0 = c.rect;
    let title_id = wid(c, "!title"@);
    let hf1 = uc2(c, c.hover, c.focus, title_id, spec_title_rect(c), opt);
    let dragged = hf1.1 == Some(title_id) && c.input.mouse_down.left;
    let rect1 = if dragged {
        Recti {
            x: sat_add(r0.x as int, c.input.mouse_delta.x as int) as i32,
            y: sat_add(r0.y as int, c.input.mouse_delta.y as int) as i32,
            width: r0.width,
            height: r0.height,
        }
    } else {
        r0
    };
    let close_id = wid(c, "!close"@);
    let hf2 = if !opt.no_close {
        uc2(c, hf1.0, hf1.1, close_id, spec_close_rect(c), opt)
    } else {
        hf1
    };
    let act = if !opt.no_close && c.input.mouse_pressed.left && hf2.1 == Some(close_id) {
        Activity::Closed
    } else {
        w.activity
    };
    TitleOut { rect: rect1, hover: hf2.0, focus: hf2.1, activity: act }
}

/// The commands the title-bar pass emits, in order: title-bar background,
/// title text, close icon (each as far as the clip in force shows it).
pub open spec fn title_cmds(w: Window, opt: WidgetOption) -> Seq<CmdView> {
    let c = w.main;
    let clip = spec_clip(c);
    frame_cmds(clip, spec_title_rect(c), c.style.spec_color(ControlColor::TitleBG)) + text_cmds(
        clip,
        c.style,
        c.name@,
        spec_title_rect(c),
        opt,
        c.style.spec_color(ControlColor::TitleText),
    ) + if !opt.no_close {
        icon_cmds(
            clip,
            IconId::Close,
            spec_close_rect(c),
            c.style.spec_color(ControlColor::TitleText),
        )
    } else {
        Seq::empty()
    }
}

/// What the sizing pass decides: the new rect and the hover/focus state
/// after the resize handle's hit test.
pub struct SizeOut {
    pub rect: Recti,
    pub hover: Option<u64>,
    pub focus: Option<u64>,
}

/// The sizing pass: either hit-test the resize handle in the bottom-right
/// corner of the entry rect `r0` and, while it holds focus with the primary
/// button down, grow or shrink the rect saturated below at 96x64; or, when
/// auto-sizing, override the dimensions so that the layout region `lb` of
/// the next frame matches the content accumulated last frame.
pub open spec fn spec_size_phase(cur: Container, r0: Recti, lb: Recti, opt: WidgetOption) -> SizeOut {
    if !opt.auto_size {
        let sz = cur.style.title_height as int;
        let resize_id = wid(cur, "!resize"@);
        let hf = uc2(cur, cur.hover, cur.focus, resize_id, spec_resize_rect(r0, sz), opt);
        let rect2 = if hf.1 == Some(resize_id) && cur.input.mouse_down.left {
            Recti {
                x: cur.rect.x,
                y: cur.rect.y,
                width: max2(96, sat_add(cur.rect.width as int, cur.input.mouse_delta.x as int))
                    as i32,
                height: max2(64, sat_add(cur.rect.height as int, cur.input.mouse_delta.y as int))
                    as i32,
            }
        } else {
            cur.rect
        };
        SizeOut { rect: rect2, hover: hf.0, focus: hf.1 }
    } else {
        let rect2 = Recti {
            x: cur.rect.x,
            y: cur.rect.y,
            width: sat_add(
                cur.content_size.x as int,
                sat_sub(cur.rect.width as int, lb.width as int),
            ) as i32,
            height: sat_add(
                cur.content_size.y as int,
                sat_sub(cur.rect.height as int, lb.height as int),
            ) as i32,
        };
        SizeOut { rect: rect2, hover: cur.hover, focus: cur.focus }
    }
}

/// Everything `begin_window` decides: the new window rect, the body, the
/// hover/focus state after the chrome's hit tests, and the activity.
pub struct BeginOut {
    pub rect: Recti,
    pub body: Recti,
    pub hover: Option<u64>,
    pub focus: Option<u64>,
    pub activity: Activity,
}

/// The full transition `begin_window` makes, as a function of the window
/// state at entry and the options: the title-bar pass (unless untitled),
/// then the sizing pass, then popup dismissal on any press while not the
/// hover root.
pub open spec fn spec_begin_window(w: Window, opt: WidgetOption) -> BeginOut {
    let c = w.main;
    let th = c.style.title_height as int;
    let t = if !opt.no_title {
        spec_title_phase(w, opt)
    } else {
        TitleOut { rect: c.rect, hover: c.hover, focus: c.focus, activity: w.activity }
    };
    let body = spec_window_body(c.rect, th, opt);
    let cur = Container { rect: t.rect, hover: t.hover, focus: t.focus, ..c };
    let lb = spec_body_layout(body, c.style.padding as int, c.scroll);
    let s = spec_size_phase(cur, c.rect, lb, opt);
    let act = if (w.ty is Popup) && !c.input.mouse_pressed.spec_is_none() && !c.in_hover_root {
        Activity::Closed
    } else {
        t.activity
    };
    BeginOut { rect: s.rect, body, hover: s.hover, focus: s.focus, activity: act }
}

/// The draw commands `begin_window` emits, in order: window background, then
/// the title bar's commands.
pub open spec fn begin_cmds(w: Window, opt: WidgetOption) -> Seq<CmdView> {
    let c = w.main;
    let clip = spec_clip(c);
    let bg = if !opt.no_frame {
        frame_cmds(clip, c.rect, c.style.spec_color(ControlColor::WindowBG))
    } else {
        Seq::empty()
    };
    bg + if !opt.no_title {
        title_cmds(w, opt)
    } else {
        Seq::empty()
    }
}

impl Window {
    pub open spec fn wf(self) -> bool {
        self.main.wf()
    }

    /// A regular window under `name`, open, at `initial_rect`.
    pub fn window(name: &str, style: &Style, input: Input, initial_rect: Recti) -> (w: Window)
        requires
            style.wf(),
        ensures
            w.wf(),
            w.ty is Window,
            w.activity is Open,
            w.main.name@ == name@,
            w.main.rect == initial_rect,
            w.main.style == *style,
            w.main.input == input,
            w.main.clip_stack@.len() == 0,
            w.main.commands@.len() == 0,
            w.main.layout.frames@.len() == 0,
            w.main.content_size == (Vec2i { x: 0, y: 0 }),
            w.main.scroll == (Vec2i { x: 0, y: 0 }),
            w.main.zindex == 0,
            w.main.focus is None,
            w.main.hover is None,
            !w.main.in_hover_root,
            w.main.idmngr.stack@.len() == 0,
    {
        let mut main = Container::new(name, style, input);
        main.rect = initial_rect;
        Window { ty: Type::Window, activity: Activity::Open, main }
    }

    /// A popup under `name`: like a window, but created closed (it opens on
    /// an explicit external trigger) and dismissed by an outside press.
    pub fn popup(name: &str, style: &Style, input: Input, initial_rect: Recti) -> (w: Window)
        requires
            style.wf(),
        ensures
            w.wf(),
            w.ty is Popup,
            w.activity is Closed,
            w.main.name@ == name@,
            w.main.rect == initial_rect,
            w.main.style == *style,
            w.main.input == input,
            w.main.clip_stack@.len() == 0,
            w.main.commands@.len() == 0,
            w.main.layout.frames@.len() == 0,
            w.main.content_size == (Vec2i { x: 0, y: 0 }),
            w.main.scroll == (Vec2i { x: 0, y: 0 }),
            w.main.zindex == 0,
            w.main.focus is None,
            w.main.hover is None,
            !w.main.in_hover_root,
            w.main.idmngr.stack@.len() == 0,
    {
        let mut main = Container::new(name, style, input);
        main.rect = initial_rect;
        Window { ty: Type::Popup, activity: Activity::Closed, main }
    }

    pub fn is_popup(&self) -> (r: bool)
        ensures
            r == (self.ty is Popup),
    {
        match self.ty {
            Type::Popup => true,
            _ => false,
        }
    }

    /// The external trigger that (re)opens a window or popup; nothing inside
    /// the begin/end lifecycle ever leaves the closed state by itself.
    pub fn open(&mut self)
        ensures
            *final(self) == (Window { activity: Activity::Open, ..*old(self) }),
    {
        self.activity = Activity::Open;
    }

    /// The title-bar pass of `begin_window`.
    #[verifier::rlimit(100)]
    #[verifier::spinoff_prover]
    fn title_phase(&mut self, opt: WidgetOption)
        requires
            old(self).wf(),
            !opt.no_title,
        ensures
            final(self).wf(),
            final(self).ty == old(self).ty,
            final(self).activity == spec_title_phase(*old(self), opt).activity,
            final(self).main == (Container {
                rect: spec_title_phase(*old(self), opt).rect,
                hover: spec_title_phase(*old(self), opt).hover,
                focus: spec_title_phase(*old(self), opt).focus,
                commands: final(self).main.commands,
                ..old(self).main
            }),
            cmds_view(final(self).main.commands@) == cmds_view(old(self).main.commands@)
                + title_cmds(*old(self), opt),
    {
        let r = self.main.rect;
        let th = self.main.style.title_height;
        let tr = Recti { x: r.x, y: r.y, width: r.width, height: th };
        self.main.draw_frame(tr, ControlColor::TitleBG);
        let id = self.main.idmngr.get_id_from_str("!title");
        self.main.update_control(id, tr, opt);
        let title = self.main.name.clone();
        self.main.draw_control_text(title.as_str(), tr, ControlColor::TitleText, opt);
        let focused = match self.main.focus {
            Some(f) => f == id,
            None => false,
        };
        if focused && self.main.input.mouse_down.is_left() {
            let nx = crate::geometry::add_sat(self.main.rect.x, self.main.input.mouse_delta.x);
            let ny = crate::geometry::add_sat(self.main.rect.y, self.main.input.mouse_delta.y);
            self.main.rect = Recti {
                x: nx,
                y: ny,
                width: self.main.rect.width,
                height: self.main.rect.height,
            };
        }
        if !opt.has_no_close() {
            let id2 = self.main.idmngr.get_id_from_str("!close");
            let cr = Recti {
                x: crate::geometry::sub_sat(crate::geometry::add_sat(tr.x, tr.width), th),
                y: tr.y,
                width: th,
                height: th,
            };
            let color = self.main.style.color_of(ControlColor::TitleText);
            self.main.draw_icon(IconId::Close, cr, color);
            self.main.update_control(id2, cr, opt);
            let focused2 = match self.main.focus {
                Some(f) => f == id2,
                None => false,
            };
            if self.main.input.mouse_pressed.is_left() && focused2 {
                self.activity = Activity::Closed;
            }
        }
        proof {
            assert(cmds_view(self.main.commands@) =~= cmds_view(old(self).main.commands@)
                + title_cmds(*old(self), opt));
        }
    }

    /// The sizing pass of `begin_window`; `r` is the window rect at entry to
    /// the frame, where the resize handle was drawn.
    #[verifier::rlimit(100)]
    #[verifier::spinoff_prover]
    fn size_phase(&mut self, opt: WidgetOption, r: Recti)
        requires
            old(self).wf(),
            opt.auto_size ==> old(self).main.layout.frames@.len() > 0,
        ensures
            final(self).wf(),
            final(self).ty == old(self).ty,
            final(self).activity == old(self).activity,
            final(self).main == (Container {
                rect: spec_size_phase(
                    old(self).main,
                    r,
                    old(self).main.layout.frames@.last().body,
                    opt,
                ).rect,
                hover: spec_size_phase(
                    old(self).main,
                    r,
                    old(self).main.layout.frames@.last().body,
                    opt,
                ).hover,
                focus: spec_size_phase(
                    old(self).main,
                    r,
                    old(self).main.layout.frames@.last().body,
                    opt,
                ).focus,
                ..old(self).main
            }),
    {
        if !opt.is_auto_sizing() {
            let sz = self.main.style.title_height;
            let id3 = self.main.idmngr.get_id_from_str("!resize");
            let rr = Recti {
                x: crate::geometry::sub_sat(crate::geometry::add_sat(r.x, r.width), sz),
                y: crate::geometry::sub_sat(crate::geometry::add_sat(r.y, r.height), sz),
                width: sz,
                height: sz,
            };
            self.main.update_control(id3, rr, opt);
            let focused3 = match self.main.focus {
                Some(f) => f == id3,
                None => false,
            };
            if focused3 && self.main.input.mouse_down.is_left() {
                let nw = crate::geometry::max_i32(
                    96,
                    crate::geometry::add_sat(self.main.rect.width, self.main.input.mouse_delta.x),
                );
                let nh = crate::geometry::max_i32(
                    64,
                    crate::geometry::add_sat(self.main.rect.height, self.main.input.mouse_delta.y),
                );
                self.main.rect = Recti {
                    x: self.main.rect.x,
                    y: self.main.rect.y,
                    width: nw,
                    height: nh,
                };
            }
        } else {
            let lb: Recti;
            {
                let top = self.main.layout.top();
                lb = top.body;
            }
            let nw = crate::geometry::add_sat(
                self.main.content_size.x,
                crate::geometry::sub_sat(self.main.rect.width, lb.width),
            );
            let nh = crate::geometry::add_sat(
                self.main.content_size.y,
                crate::geometry::sub_sat(self.main.rect.height, lb.height),
            );
            self.main.rect = Recti {
                x: self.main.rect.x,
                y: self.main.rect.y,
                width: nw,
                height: nh,
            };
        }
    }

    /// Run the per-frame window chrome: draw background and title bar, hit
    /// test the title (drag-to-move), close button, and resize handle (or
    /// auto-size from last frame's content), dismiss an unhovered popup on
    /// any press, open the body's layout scope, and push the body as the
    /// active clip rect. `end_window` must follow unconditionally, even if
    /// the activity became closed mid-call, to keep the clip stack balanced.
    #[verifier::rlimit(100)]
    #[verifier::spinoff_prover]
    pub fn begin_window(&mut self, opt: WidgetOption)
        requires
            old(self).wf(),
        ensures
            final(self).wf(),
            final(self).ty == old(self).ty,
            final(self).activity == spec_begin_window(*old(self), opt).activity,
            final(self).main == (Container {
                rect: spec_begin_window(*old(self), opt).rect,
                body: spec_begin_window(*old(self), opt).body,
                hover: spec_begin_window(*old(self), opt).hover,
                focus: spec_begin_window(*old(self), opt).focus,
                clip_stack: final(self).main.clip_stack,
                commands: final(self).main.commands,
                layout: final(self).main.layout,
                ..old(self).main
            }),
            final(self).main.clip_stack@ == old(self).main.clip_stack@.push(
                spec_intersect(spec_begin_window(*old(self), opt).body, spec_clip(old(self).main)),
            ),
            cmds_view(final(self).main.commands@) == cmds_view(old(self).main.commands@)
                + begin_cmds(*old(self), opt),
            final(self).main.layout.frames@.len() == old(self).main.layout.frames@.len() + 1,
            final(self).main.layout.frames@.drop_last() == old(self).main.layout.frames@,
            final(self).main.layout.frames@.last().body == spec_body_layout(
                spec_begin_window(*old(self), opt).body,
                old(self).main.style.padding as int,
                old(self).main.scroll,
            ),
            final(self).main.layout.frames@.last().position == (Vec2i { x: 0, y: 0 }),
            final(self).main.layout.frames@.last().row_widths@.len() == 0,
            final(self).main.layout.frames@.last().row_index == 0,
            final(self).main.layout.frames@.last().row_height == 0,
            final(self).main.layout.frames@.last().next_row_y == 0,
    {
        let is_popup = self.is_popup();
        let r = self.main.rect;
        let th = self.main.style.title_height;
        if !opt.has_no_frame() {
            self.main.draw_frame(r, ControlColor::WindowBG);
        }
        if !opt.has_no_title() {
            self.title_phase(opt);
        }
        let body = if opt.has_no_title() {
            r
        } else {
            Recti {
                x: r.x,
                y: crate::geometry::add_sat(r.y, th),
                width: r.width,
                height: crate::geometry::sub_sat(r.height, th),
            }
        };
        self.main.push_container_body(body, opt);
        self.size_phase(opt, r);
        if is_popup && !self.main.input.mouse_pressed.is_none() && !self.main.in_hover_root {
            self.activity = Activity::Closed;
        }
        let b = self.main.body;
        self.main.push_clip_rect(b);
        proof {
            assert(cmds_view(self.main.commands@) =~= cmds_view(old(self).main.commands@)
                + begin_cmds(*old(self), opt));
        }
    }

    /// Pop the clip rect `begin_window` pushed, restoring the clip stack to
    /// its depth before the pair.
    pub fn end_window(&mut self)
        requires
            old(self).main.clip_stack@.len() > 0,
        ensures
            final(self).main.clip_stack@ == old(self).main.clip_stack@.drop_last(),
            final(self).ty == old(self).ty,
            final(self).activity == old(self).activity,
            final(self).main == (Container {
                clip_stack: final(self).main.clip_stack,
                ..old(self).main
            }),
    {
        self.main.pop_clip_rect();
    }
}

/// A handle to one window: the unit the canvas registers and the call site
/// drives through the frame lifecycle (prepare, begin, widget calls, end,
/// finish, render).
pub struct WindowHandle(pub Window);

impl WindowHandle {
    pub fn window(name: &str, style: &Style, input: Input, initial_rect: Recti) -> (h:
        WindowHandle)
        requires
            style.wf(),
        ensures
            h.0.wf(),
            h.0.ty is Window,
            h.0.activity is Open,
            h.0.main.name@ == name@,
            h.0.main.rect == initial_rect,
            h.0.main.style == *style,
            h.0.main.input == input,
            h.0.main.clip_stack@.len() == 0,
            h.0.main.commands@.len() == 0,
            h.0.main.layout.frames@.len() == 0,
            h.0.main.focus is None,
            h.0.main.hover is None,
            !h.0.main.in_hover_root,
    {
        WindowHandle(Window::window(name, style, input, initial_rect))
    }

    pub fn popup(name: &str, style: &Style, input: Input) -> (h: WindowHandle)
        requires
            style.wf(),
        ensures
            h.0.wf(),
            h.0.ty is Popup,
            h.0.activity is Closed,
            h.0.main.name@ == name@,
            h.0.main.rect == (Recti { x: 0, y: 0, width: 0, height: 0 }),
            h.0.main.style == *style,
            h.0.main.input == input,
            h.0.main.clip_stack@.len() == 0,
            h.0.main.commands@.len() == 0,
            h.0.main.layout.frames@.len() == 0,
            h.0.main.focus is None,
            h.0.main.hover is None,
            !h.0.main.in_hover_root,
    {
        WindowHandle(Window::popup(name, style, input, Recti { x: 0, y: 0, width: 0, height: 0 }))
    }

    /// Whether the window is currently open (drawn and interactive).
    pub fn is_open(&self) -> (r: bool)
        ensures
            r == (self.0.activity is Open),
    {
        match self.0.activity {
            Activity::Open => true,
            _ => false,
        }
    }

    /// The window behind the handle.
    pub fn inner(&self) -> (w: &Window)
        ensures
            *w == self.0,
    {
        &self.0
    }

    /// Exclusive access to the window behind the handle: what the caller
    /// writes through the reference is what the handle holds afterwards.
    pub fn inner_mut(&mut self) -> (w: &mut Window)
        ensures
            *w == old(self).0,
            final(self).0 == *final(w),
    {
        &mut self.0
    }

    /// Reset the window's transient per-frame state.
    pub fn prepare(&mut self)
        ensures
            final(self).0.ty == old(self).0.ty,
            final(self).0.activity == old(self).0.activity,
            final(self).0.main.commands@.len() == 0,
            final(self).0.main.layout.frames@.len() == 0,
            final(self).0.main == (Container {
                commands: final(self).0.main.commands,
                layout: final(self).0.main.layout,
                ..old(self).0.main
            }),
    {
        self.0.main.prepare()
    }

    /// Replay this window's frame commands into `out`, in emission order.
    pub fn render(&self, out: &mut Vec<crate::command::Command>)
        ensures
            cmds_view(final(out)@) == cmds_view(old(out)@) + cmds_view(self.0.main.commands@),
    {
        self.0.main.render(out)
    }

    /// Close the frame's bookkeeping; see `Container::finish`.
    pub fn finish(&mut self)
        requires
            old(self).0.main.layout.frames@.len() > 0,
        ensures
            final(self).0.ty == old(self).0.ty,
            final(self).0.activity == old(self).0.activity,
            final(self).0.main.layout.frames@ == old(self).0.main.layout.frames@.drop_last(),
            final(self).0.main.content_size == (Vec2i {
                x: sat_sub(
                    old(self).0.main.layout.frames@.last().max.x as int,
                    old(self).0.main.layout.frames@.last().body.x as int,
                ) as i32,
                y: sat_sub(
                    old(self).0.main.layout.frames@.last().max.y as int,
                    old(self).0.main.layout.frames@.last().body.y as int,
                ) as i32,
            }),
            final(self).0.main == (Container {
                content_size: final(self).0.main.content_size,
                layout: final(self).0.main.layout,
                ..old(self).0.main
            }),
    {
        self.0.main.finish()
    }

    /// This window's position in the draw order.
    pub fn zindex(&self) -> (z: i32)
        ensures
            z == self.0.main.zindex,
    {
        self.0.main.zindex
    }

    /// See `Window::begin_window`.
    pub fn begin_window(&mut self, opt: WidgetOption)
        requires
            old(self).0.wf(),
        ensures
            final(self).0.wf(),
            final(self).0.ty == old(self).0.ty,
            final(self).0.activity == spec_begin_window(old(self).0, opt).activity,
            final(self).0.main == (Container {
                rect: spec_begin_window(old(self).0, opt).rect,
                body: spec_begin_window(old(self).0, opt).body,
                hover: spec_begin_window(old(self).0, opt).hover,
                focus: spec_begin_window(old(self).0, opt).focus,
                clip_stack: final(self).0.main.clip_stack,
                commands: final(self).0.main.commands,
                layout: final(self).0.main.layout,
                ..old(self).0.main
            }),
            final(self).0.main.clip_stack@ == old(self).0.main.clip_stack@.push(
                spec_intersect(spec_begin_window(old(self).0, opt).body, spec_clip(old(self).0.main)),
            ),
            cmds_view(final(self).0.main.commands@) == cmds_view(old(self).0.main.commands@)
                + begin_cmds(old(self).0, opt),
            final(self).0.main.layout.frames@.len() == old(self).0.main.layout.frames@.len() + 1,
    {
        self.0.begin_window(opt)
    }

    /// See `Window::end_window`.
    pub fn end_window(&mut self)
        requires
            old(self).0.main.clip_stack@.len() > 0,
        ensures
            final(self).0.main.clip_stack@ == old(self).0.main.clip_stack@.drop_last(),
            final(self).0.ty == old(self).0.ty,
            final(self).0.activity == old(self).0.activity,
            final(self).0.main == (Container {
                clip_stack: final(self).0.main.clip_stack,
                ..old(self).0.main
            }),
    {
        self.0.end_window()
    }
}

} // verus!
