//! The frame orchestrator: owns the registry of windows and popups, the
//! shared input snapshot and the z-order, arbitrates which window is the
//! hover root, and assembles the final draw stream in z-order.

use crate::command::{cmds_view, CmdView, Command};
use crate::geometry::{contains_point, rect_contains, Recti, Vec2i};
use crate::input::Input;
use crate::style::Style;
use crate::window::{Activity, Window};
use vstd::prelude::*;

verus! {

/// The index of the hover root among the first `k` windows of `ws` (the
/// registry is kept sorted by z-order, so the topmost candidate is the one
/// with the greatest index): the topmost open window containing `pos`.
pub open spec fn spec_hover_root(ws: Seq<Window>, k: int, pos: Vec2i) -> Option<int>
    decreases k,
{
    if k <= 0 {
        None
    } else if (ws[k - 1].activity is Open) && rect_contains(ws[k - 1].main.rect, pos) {
        Some(k - 1)
    } else {
        spec_hover_root(ws, k - 1, pos)
    }
}

/// The hover root really is the topmost open window under the pointer, and
/// exists whenever any open window contains the pointer.
pub proof fn lemma_hover_root_topmost(ws: Seq<Window>, k: int, pos: Vec2i)
    requires
        0 <= k <= ws.len(),
    ensures
        match spec_hover_root(ws, k, pos) {
            Some(i) => 0 <= i < k && (ws[i].activity is Open) && rect_contains(ws[i].main.rect, pos)
                && forall|j: int|
                i < j < k ==> !((ws[j].activity is Open) && rect_contains(ws[j].main.rect, pos)),
            None => forall|j: int|
                0 <= j < k ==> !((ws[j].activity is Open) && rect_contains(ws[j].main.rect, pos)),
        },
    decreases k,
{
    if k > 0 {
        lemma_hover_root_topmost(ws, k - 1, pos);
    }
}

/// One window's state after the per-frame refresh: new input snapshot, the
/// hover-root flag, transient buffers cleared, everything persistent kept.
pub open spec fn refreshed(a: Window, b: Window, input: Input, ihr: bool) -> bool {
    &&& b.ty == a.ty
    &&& b.activity == a.activity
    &&& b.main == (crate::container::Container {
        input,
        in_hover_root: ihr,
        commands: b.main.commands,
        layout: b.main.layout,
        ..a.main
    })
    &&& b.main.commands@.len() == 0
    &&& b.main.layout.frames@.len() == 0
}

/// The draw stream of one frame: each open window's command list, in
/// registry order (which the canvas keeps equal to ascending z-order).
pub open spec fn spec_frame_stream(ws: Seq<Window>) -> Seq<CmdView>
    decreases ws.len(),
{
    if ws.len() == 0 {
        Seq::empty()
    } else {
        spec_frame_stream(ws.drop_last()) + if ws.last().activity is Open {
            cmds_view(ws.last().main.commands@)
        } else {
            Seq::empty()
        }
    }
}

/// The registry of windows and popups plus the per-frame input snapshot.
/// Windows are kept in ascending z-order; raising a window moves it to the
/// end with a z-index above every other.
pub struct Canvas {
    pub windows: Vec<Window>,
    pub input: Input,
    pub last_zindex: i32,
}

impl Canvas {
    /// Registry order is ascending (strict) z-order, no z-index exceeds the
    /// high-water mark, and every window is well formed.
    pub open spec fn wf(self) -> bool {
        &&& forall|i: int, j: int|
            0 <= i < j < self.windows@.len() ==> #[trigger] self.windows@[i].main.zindex
                < #[trigger] self.windows@[j].main.zindex
        &&& forall|i: int|
            0 <= i < self.windows@.len() ==> #[trigger] self.windows@[i].main.zindex
                <= self.last_zindex
        &&& forall|i: int| 0 <= i < self.windows@.len() ==> (#[trigger] self.windows@[i]).wf()
    }

    pub fn new() -> (c: Canvas)
        ensures
            c.wf(),
            c.windows@.len() == 0,
            c.input == Input::initial(),
            c.last_zindex == 0,
    {
        Canvas { windows: Vec::new(), input: Input::new(), last_zindex: 0 }
    }

    /// Register a new window, open, above everything registered so far;
    /// returns its index.
    pub fn add_window(&mut self, name: &str, style: &Style, initial_rect: Recti) -> (i: usize)
        requires
            old(self).wf(),
            style.wf(),
            old(self).last_zindex < i32::MAX,
        ensures
            final(self).wf(),
            i as int == old(self).windows@.len(),
            final(self).windows@.len() == old(self).windows@.len() + 1,
            final(self).windows@.drop_last() == old(self).windows@,
            final(self).last_zindex == old(self).last_zindex + 1,
            final(self).input == old(self).input,
            final(self).windows@.last().ty is Window,
            final(self).windows@.last().activity is Open,
            final(self).windows@.last().main.name@ == name@,
            final(self).windows@.last().main.rect == initial_rect,
            final(self).windows@.last().main.zindex == old(self).last_zindex + 1,
            final(self).windows@.last().main.style == *style,
            final(self).windows@.last().main.focus is None,
            final(self).windows@.last().main.hover is None,
            final(self).windows@.last().main.clip_stack@.len() == 0,
            final(self).windows@.last().main.commands@.len() == 0,
            final(self).windows@.last().main.layout.frames@.len() == 0,
    {
        let mut w = Window::window(name, style, self.input, initial_rect);
        self.last_zindex = self.last_zindex + 1;
        w.main.set_zindex(self.last_zindex);
        let i = self.windows.len();
        self.windows.push(w);
        proof {
            assert(self.windows@.drop_last() =~= old(self).windows@);
        }
        i
    }

    /// Register a new popup, closed until `open_popup` triggers it.
    pub fn add_popup(&mut self, name: &str, style: &Style) -> (i: usize)
        requires
            old(self).wf(),
            style.wf(),
            old(self).last_zindex < i32::MAX,
        ensures
            final(self).wf(),
            i as int == old(self).windows@.len(),
            final(self).windows@.len() == old(self).windows@.len() + 1,
            final(self).windows@.drop_last() == old(self).windows@,
            final(self).last_zindex == old(self).last_zindex + 1,
            final(self).input == old(self).input,
            final(self).windows@.last().ty is Popup,
            final(self).windows@.last().activity is Closed,
            final(self).windows@.last().main.name@ == name@,
            final(self).windows@.last().main.rect == (Recti { x: 0, y: 0, width: 0, height: 0 }),
            final(self).windows@.last().main.zindex == old(self).last_zindex + 1,
            final(self).windows@.last().main.style == *style,
    {
        let mut w = Window::popup(name, style, self.input, Recti { x: 0, y: 0, width: 0, height: 0 });
        self.last_zindex = self.last_zindex + 1;
        w.main.set_zindex(self.last_zindex);
        let i = self.windows.len();
        self.windows.push(w);
        proof {
            assert(self.windows@.drop_last() =~= old(self).windows@);
        }
        i
    }

    /// Raise window `i` to the top: it moves to the end of the registry with
    /// a z-index above every other window.
    pub fn bring_to_front(&mut self, i: usize)
        requires
            old(self).wf(),
            i < old(self).windows@.len(),
            old(self).last_zindex < i32::MAX,
        ensures
            final(self).wf(),
            final(self).last_zindex == old(self).last_zindex + 1,
            final(self).input == old(self).input,
            final(self).windows@ == old(self).windows@.remove(i as int).push(
                Window {
                    main: (crate::container::Container {
                        zindex: (old(self).last_zindex + 1) as i32,
                        ..old(self).windows@[i as int].main
                    }),
                    ..old(self).windows@[i as int]
                },
            ),
    {
        let mut w = self.windows.remove(i);
        self.last_zindex = self.last_zindex + 1;
        w.main.set_zindex(self.last_zindex);
        self.windows.push(w);
    }

    /// The external trigger that opens popup `i`: it opens and rises to the
    /// top.
    pub fn open_popup(&mut self, i: usize)
        requires
            old(self).wf(),
            i < old(self).windows@.len(),
            old(self).last_zindex < i32::MAX,
        ensures
            final(self).wf(),
            final(self).last_zindex == old(self).last_zindex + 1,
            final(self).input == old(self).input,
            final(self).windows@ == old(self).windows@.remove(i as int).push(
                Window {
                    activity: Activity::Open,
                    main: (crate::container::Container {
                        zindex: (old(self).last_zindex + 1) as i32,
                        ..old(self).windows@[i as int].main
                    }),
                    ..old(self).windows@[i as int]
                },
            ),
    {
        let mut w = self.windows.remove(i);
        w.open();
        self.last_zindex = self.last_zindex + 1;
        w.main.set_zindex(self.last_zindex);
        self.windows.push(w);
    }

    /// Check a window out of the registry for this frame's widget calls; the
    /// caller hands it back with `put_window`. (The registry and the call
    /// site share the window; the checkout enforces the single writer.)
    pub fn take_window(&mut self, i: usize) -> (w: Window)
        requires
            old(self).wf(),
            i < old(self).windows@.len(),
        ensures
            final(self).wf(),
            w == old(self).windows@[i as int],
            final(self).windows@ == old(self).windows@.remove(i as int),
            final(self).input == old(self).input,
            final(self).last_zindex == old(self).last_zindex,
    {
        self.windows.remove(i)
    }

    /// Hand a checked-out window back to slot `i`. The window must still
    /// carry its z-index so the registry stays in z-order.
    pub fn put_window(&mut self, i: usize, w: Window)
        requires
            old(self).wf(),
            i <= old(self).windows@.len(),
            w.wf(),
            w.main.zindex <= old(self).last_zindex,
            forall|j: int|
                0 <= j < i ==> #[trigger] old(self).windows@[j].main.zindex < w.main.zindex,
            forall|j: int|
                i <= j < old(self).windows@.len() ==> w.main.zindex < #[trigger] old(
                    self,
                ).windows@[j].main.zindex,
        ensures
            final(self).wf(),
            final(self).windows@ == old(self).windows@.insert(i as int, w),
            final(self).input == old(self).input,
            final(self).last_zindex == old(self).last_zindex,
    {
        self.windows.insert(i, w);
    }

    /// Refresh the frame: store the new input snapshot, decide the hover
    /// root (the topmost open window under the pointer), and hand every
    /// window the snapshot and its hover-root flag with its transient
    /// buffers cleared.
    pub fn begin_frame(&mut self, input: Input)
        requires
            old(self).wf(),
        ensures
            final(self).wf(),
            final(self).input == input,
            final(self).last_zindex == old(self).last_zindex,
            final(self).windows@.len() == old(self).windows@.len(),
            forall|i: int|
                0 <= i < old(self).windows@.len() ==> refreshed(
                    old(self).windows@[i],
                    #[trigger] final(self).windows@[i],
                    input,
                    spec_hover_root(
                        old(self).windows@,
                        old(self).windows@.len() as int,
                        input.mouse_pos,
                    ) == Some(i),
                ),
    {
        self.input = input;
        let n = self.windows.len();
        let mut root: usize = n;
        let mut k: usize = 0;
        while k < n
            invariant
                n == self.windows@.len(),
                0 <= k <= n,
                root == n || root < k,
                if root == n {
                    spec_hover_root(self.windows@, k as int, input.mouse_pos) is None
                } else {
                    spec_hover_root(self.windows@, k as int, input.mouse_pos) == Some(root as int)
                },
            decreases n - k,
        {
            let is_open = match self.windows[k].activity {
                Activity::Open => true,
                _ => false,
            };
            let hit = contains_point(&self.windows[k].main.rect, input.mouse_pos);
            if is_open && hit {
                root = k;
            }
            k = k + 1;
        }
        let ghost ws0 = self.windows@;
        let mut i: usize = 0;
        while i < n
            invariant
                n == self.windows@.len(),
                ws0.len() == n,
                0 <= i <= n,
                self.input == input,
                self.last_zindex == old(self).last_zindex,
                root <= n,
                forall|j: int| i <= j < n ==> self.windows@[j] == ws0[j],
                forall|j: int|
                    0 <= j < i ==> refreshed(
                        ws0[j],
                        #[trigger] self.windows@[j],
                        input,
                        j == root as int && root < n,
                    ),
            decreases n - i,
        {
            let mut w = self.windows.remove(i);
            w.main.set_input(input);
            w.main.set_in_hover_root(i == root);
            w.main.prepare();
            let ghost before = self.windows@;
            self.windows.insert(i, w);
            proof {
                assert forall|j: int| i + 1 <= j < n implies self.windows@[j] == ws0[j] by {
                    assert(self.windows@[j] == before[j - 1]);
                }
                assert forall|j: int| 0 <= j < i + 1 implies refreshed(
                    ws0[j],
                    #[trigger] self.windows@[j],
                    input,
                    j == root as int && root < n,
                ) by {
                    if j < i {
                        assert(self.windows@[j] == before[j]);
                    } else {
                        assert(self.windows@[j] == w);
                    }
                }
            }
            i = i + 1;
        }
        proof {
            assert forall|i2: int| 0 <= i2 < ws0.len() implies refreshed(
                ws0[i2],
                #[trigger] self.windows@[i2],
                input,
                spec_hover_root(ws0, ws0.len() as int, input.mouse_pos) == Some(i2),
            ) by {
                if root < n {
                    assert(spec_hover_root(ws0, n as int, input.mouse_pos) == Some(root as int));
                } else {
                    assert(spec_hover_root(ws0, n as int, input.mouse_pos) is None);
                }
            }
            assert forall|a: int, b: int|
                0 <= a < b < self.windows@.len() implies #[trigger] self.windows@[a].main.zindex
                < #[trigger] self.windows@[b].main.zindex by {
                assert(refreshed(ws0[a], self.windows@[a], input, a == root as int && root < n));
                assert(refreshed(ws0[b], self.windows@[b], input, b == root as int && root < n));
            }
            assert forall|a: int|
                0 <= a < self.windows@.len() implies #[trigger] self.windows@[a].main.zindex
                <= self.last_zindex && self.windows@[a].wf() by {
                assert(refreshed(ws0[a], self.windows@[a], input, a == root as int && root < n));
            }
        }
    }

    /// Replay every open window's commands into `out`, in ascending z-order.
    pub fn render(&self, out: &mut Vec<Command>)
        ensures
            cmds_view(final(out)@) == cmds_view(old(out)@) + spec_frame_stream(self.windows@),
    {
        let n = self.windows.len();
        let mut i: usize = 0;
        while i < n
            invariant
                n == self.windows@.len(),
                0 <= i <= n,
                cmds_view(out@) == cmds_view(old(out)@) + spec_frame_stream(
                    self.windows@.take(i as int),
                ),
            decreases n - i,
        {
            let is_open = match self.windows[i].activity {
                Activity::Open => true,
                _ => false,
            };
            proof {
                assert(self.windows@.take(i + 1).drop_last() =~= self.windows@.take(i as int));
                assert(self.windows@.take(i + 1).last() == self.windows@[i as int]);
            }
            if is_open {
                self.windows[i].main.render(out);
            }
            i = i + 1;
        }
        proof {
            assert(self.windows@.take(n as int) =~= self.windows@);
        }
    }
}

} // verus!
