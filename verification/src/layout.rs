//! The per-container layout stack: each frame is a row/column cursor over a
//! body rectangle that hands out successive widget slots and accumulates the
//! bounding box of everything handed out, which auto-sizing consumes.

use crate::geometry::{max2, sat_add, sat_sub, Recti, Vec2i};
use vstd::prelude::*;

verus! {

/// One layout scope: a cursor over `body`. Positions are relative to the
/// body origin; `max` is the absolute bounding extent of every slot handed
/// out, from which the content size is derived.
#[derive(Debug)]
pub struct LayoutFrame {
    /// The region slots are laid out in (scroll offset already applied).
    pub body: Recti,
    /// The cursor, relative to the body origin.
    pub position: Vec2i,
    /// Column widths of the current row; empty means one default-sized
    /// column. A slot past the last declared column recycles the last width.
    pub row_widths: Vec<i32>,
    /// Next column of the current row, saturated at the declared count.
    pub row_index: usize,
    /// Height of the current row's slots; zero or negative means the default.
    pub row_height: i32,
    /// Relative y where the next row will start.
    pub next_row_y: i32,
    /// Absolute maximum extents of the slots handed out so far.
    pub max: Vec2i,
}

/// The width the current row declares for column `idx`: the last declared
/// width is recycled past the end of the row, and an empty row means one
/// default-width column.
pub open spec fn declared_width(widths: Seq<i32>, idx: int, default_w: int) -> int {
    if widths.len() == 0 {
        default_w
    } else if idx < widths.len() {
        widths[idx] as int
    } else {
        widths[widths.len() - 1] as int
    }
}

/// The width of the next slot: positive widths are fixed, zero means the
/// default width, and a negative width fills the space remaining in the body
/// less its magnitude.
pub open spec fn slot_width(
    widths: Seq<i32>,
    idx: int,
    body_w: int,
    pos_x: int,
    default_w: int,
) -> int {
    let d = declared_width(widths, idx, default_w);
    if d > 0 {
        d
    } else if d == 0 {
        default_w
    } else {
        sat_add(sat_sub(body_w, pos_x), d)
    }
}

pub open spec fn slot_height(row_height: int, default_h: int) -> int {
    if row_height > 0 {
        row_height
    } else {
        default_h
    }
}

/// The next slot a layout frame hands out.
pub open spec fn spec_slot(f: LayoutFrame, default_size: Vec2i) -> Recti {
    Recti {
        x: sat_add(f.body.x as int, f.position.x as int) as i32,
        y: sat_add(f.body.y as int, f.position.y as int) as i32,
        width: slot_width(
            f.row_widths@,
            f.row_index as int,
            f.body.width as int,
            f.position.x as int,
            default_size.x as int,
        ) as i32,
        height: slot_height(f.row_height as int, default_size.y as int) as i32,
    }
}

/// The frame after handing out `slot`: the cursor advances one column, the
/// next row's start drops below the tallest slot seen, and the accumulated
/// extents grow to cover the slot.
pub open spec fn spec_advance(f: LayoutFrame, slot: Recti, spacing: int) -> LayoutFrame {
    LayoutFrame {
        position: Vec2i {
            x: sat_add(sat_add(f.position.x as int, slot.width as int), spacing) as i32,
            y: f.position.y,
        },
        row_index: if f.row_index < f.row_widths@.len() {
            (f.row_index + 1) as usize
        } else {
            f.row_index
        },
        next_row_y: max2(
            f.next_row_y as int,
            sat_add(sat_add(f.position.y as int, slot.height as int), spacing),
        ) as i32,
        max: Vec2i {
            x: max2(f.max.x as int, sat_add(slot.x as int, slot.width as int)) as i32,
            y: max2(f.max.y as int, sat_add(slot.y as int, slot.height as int)) as i32,
        },
        ..f
    }
}

/// The stack of layout scopes of one container.
#[derive(Debug)]
pub struct LayoutStack {
    pub frames: Vec<LayoutFrame>,
}

impl LayoutStack {
    pub fn new() -> (s: LayoutStack)
        ensures
            s.frames@.len() == 0,
    {
        LayoutStack { frames: Vec::new() }
    }

    pub open spec fn depth(self) -> nat {
        self.frames@.len()
    }

    /// Begin a new layout scope over `body`, shifted by the scroll offset.
    /// The fresh cursor sits at the body origin and no content has been
    /// accumulated yet.
    pub fn push_layout(&mut self, body: Recti, scroll: Vec2i)
        ensures
            final(self).frames@.len() == old(self).frames@.len() + 1,
            final(self).frames@.drop_last() == old(self).frames@,
            final(self).frames@.last().body == (Recti {
                x: sat_sub(body.x as int, scroll.x as int) as i32,
                y: sat_sub(body.y as int, scroll.y as int) as i32,
                width: body.width,
                height: body.height,
            }),
            final(self).frames@.last().position == (Vec2i { x: 0, y: 0 }),
            final(self).frames@.last().row_widths@.len() == 0,
            final(self).frames@.last().row_index == 0,
            final(self).frames@.last().row_height == 0,
            final(self).frames@.last().next_row_y == 0,
            final(self).frames@.last().max == (Vec2i {
                x: sat_sub(body.x as int, scroll.x as int) as i32,
                y: sat_sub(body.y as int, scroll.y as int) as i32,
            }),
    {
        let x = crate::geometry::sub_sat(body.x, scroll.x);
        let y = crate::geometry::sub_sat(body.y, scroll.y);
        let frame = LayoutFrame {
            body: Recti { x, y, width: body.width, height: body.height },
            position: Vec2i { x: 0, y: 0 },
            row_widths: Vec::new(),
            row_index: 0,
            row_height: 0,
            next_row_y: 0,
            max: Vec2i { x, y },
        };
        self.frames.push(frame);
        proof {
            assert(self.frames@.drop_last() =~= old(self).frames@);
        }
    }

    /// Leave the innermost layout scope.
    pub fn pop(&mut self)
        requires
            old(self).frames@.len() > 0,
        ensures
            final(self).frames@ == old(self).frames@.drop_last(),
    {
        let _ = self.frames.pop();
        proof {
            assert(self.frames@ =~= old(self).frames@.drop_last());
        }
    }

    /// The innermost layout frame.
    pub fn top(&self) -> (f: &LayoutFrame)
        requires
            self.frames@.len() > 0,
        ensures
            *f == self.frames@.last(),
    {
        &self.frames[self.frames.len() - 1]
    }

    /// Declare the columns of the next row: `widths` per column (positive
    /// fixed, zero default, negative filling the remainder), slots `height`
    /// tall. The cursor returns to the left edge, below the previous row.
    pub fn row(&mut self, widths: Vec<i32>, height: i32)
        requires
            old(self).frames@.len() > 0,
        ensures
            final(self).frames@.len() == old(self).frames@.len(),
            final(self).frames@.drop_last() == old(self).frames@.drop_last(),
            final(self).frames@.last() == (LayoutFrame {
                row_widths: widths,
                row_index: 0,
                row_height: height,
                position: (Vec2i { x: 0, y: old(self).frames@.last().next_row_y }),
                ..old(self).frames@.last()
            }),
    {
        let mut f = self.frames.pop().unwrap();
        let y = f.next_row_y;
        f.row_widths = widths;
        f.row_index = 0;
        f.row_height = height;
        f.position = Vec2i { x: 0, y };
        self.frames.push(f);
        proof {
            assert(self.frames@.drop_last() =~= old(self).frames@.drop_last());
        }
    }

    /// Hand out the next widget slot of the current row and advance the
    /// cursor; slots past the declared columns recycle the last width.
    pub fn next(&mut self, default_size: Vec2i, spacing: i32) -> (r: Recti)
        requires
            old(self).frames@.len() > 0,
            0 <= spacing,
        ensures
            r == spec_slot(old(self).frames@.last(), default_size),
            final(self).frames@.len() == old(self).frames@.len(),
            final(self).frames@.drop_last() == old(self).frames@.drop_last(),
            final(self).frames@.last() == spec_advance(
                old(self).frames@.last(),
                spec_slot(old(self).frames@.last(), default_size),
                spacing as int,
            ),
    {
        let mut f = self.frames.pop().unwrap();
        let declared: i32 = if f.row_widths.len() == 0 {
            default_size.x
        } else if f.row_index < f.row_widths.len() {
            f.row_widths[f.row_index]
        } else {
            f.row_widths[f.row_widths.len() - 1]
        };
        let w: i32 = if declared > 0 {
            declared
        } else if declared == 0 {
            default_size.x
        } else {
            crate::geometry::add_sat(crate::geometry::sub_sat(f.body.width, f.position.x), declared)
        };
        let h: i32 = if f.row_height > 0 {
            f.row_height
        } else {
            default_size.y
        };
        let slot = Recti {
            x: crate::geometry::add_sat(f.body.x, f.position.x),
            y: crate::geometry::add_sat(f.body.y, f.position.y),
            width: w,
            height: h,
        };
        f.position = Vec2i {
            x: crate::geometry::add_sat(crate::geometry::add_sat(f.position.x, w), spacing),
            y: f.position.y,
        };
        if f.row_index < f.row_widths.len() {
            f.row_index = f.row_index + 1;
        }
        f.next_row_y = crate::geometry::max_i32(
            f.next_row_y,
            crate::geometry::add_sat(crate::geometry::add_sat(f.position.y, h), spacing),
        );
        f.max = Vec2i {
            x: crate::geometry::max_i32(f.max.x, crate::geometry::add_sat(slot.x, slot.width)),
            y: crate::geometry::max_i32(f.max.y, crate::geometry::add_sat(slot.y, slot.height)),
        };
        self.frames.push(f);
        proof {
            assert(self.frames@.drop_last() =~= old(self).frames@.drop_last());
        }
        slot
    }
}

} // verus!
