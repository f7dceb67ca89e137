//! Integer points and rectangles, with saturating coordinate arithmetic and
//! the rectangle operations (intersection, containment, shrinking) that
//! layout, clipping and hit-testing are built on.

use vstd::prelude::*;

verus! {

/// A point or extent in pixels.
#[derive(Clone, Copy, Debug, PartialEq, Eq, Structural)]
pub struct Vec2i {
    pub x: i32,
    pub y: i32,
}

/// An integer rectangle. Width and height may be zero or negative; a rect
/// with non-positive width or height has empty area for clipping purposes.
#[derive(Clone, Copy, Debug, PartialEq, Eq, Structural)]
pub struct Recti {
    pub x: i32,
    pub y: i32,
    pub width: i32,
    pub height: i32,
}

pub open spec fn i32_clamp(v: int) -> int {
    if v > i32::MAX as int {
        i32::MAX as int
    } else if v < i32::MIN as int {
        i32::MIN as int
    } else {
        v
    }
}

/// Saturating sum of two coordinates.
pub open spec fn sat_add(a: int, b: int) -> int {
    i32_clamp(a + b)
}

/// Saturating difference of two coordinates.
pub open spec fn sat_sub(a: int, b: int) -> int {
    i32_clamp(a - b)
}

pub fn vec2(x: i32, y: i32) -> (r: Vec2i)
    ensures
        r == (Vec2i { x, y }),
{
    Vec2i { x, y }
}

pub fn rect(x: i32, y: i32, width: i32, height: i32) -> (r: Recti)
    ensures
        r == (Recti { x, y, width, height }),
{
    Recti { x, y, width, height }
}

/// Coordinate addition that clamps at the representable range instead of
/// wrapping, so that window dragging and resizing are total.
pub fn add_sat(a: i32, b: i32) -> (r: i32)
    ensures
        r as int == sat_add(a as int, b as int),
{
    let s: i64 = a as i64 + b as i64;
    if s > i32::MAX as i64 {
        i32::MAX
    } else if s < i32::MIN as i64 {
        i32::MIN
    } else {
        s as i32
    }
}

pub fn sub_sat(a: i32, b: i32) -> (r: i32)
    ensures
        r as int == sat_sub(a as int, b as int),
{
    let s: i64 = a as i64 - b as i64;
    if s > i32::MAX as i64 {
        i32::MAX
    } else if s < i32::MIN as i64 {
        i32::MIN
    } else {
        s as i32
    }
}

/// Left edge of the intersection of two rectangles.
pub open spec fn inter_x(a: Recti, b: Recti) -> int {
    if a.x >= b.x {
        a.x as int
    } else {
        b.x as int
    }
}

/// Top edge of the intersection of two rectangles.
pub open spec fn inter_y(a: Recti, b: Recti) -> int {
    if a.y >= b.y {
        a.y as int
    } else {
        b.y as int
    }
}

/// Right edge of the intersection, clamped so it never lies left of the
/// intersection's own left edge (an empty overlap yields width zero).
pub open spec fn inter_right(a: Recti, b: Recti) -> int {
    let ar = a.x + a.width;
    let br = b.x + b.width;
    let r = if ar <= br {
        ar
    } else {
        br
    };
    if r >= inter_x(a, b) {
        r
    } else {
        inter_x(a, b)
    }
}

pub open spec fn inter_bottom(a: Recti, b: Recti) -> int {
    let ab = a.y + a.height;
    let bb = b.y + b.height;
    let r = if ab <= bb {
        ab
    } else {
        bb
    };
    if r >= inter_y(a, b) {
        r
    } else {
        inter_y(a, b)
    }
}

/// The intersection of two rectangles, with width and height clamped at
/// zero when the rectangles do not overlap.
pub open spec fn spec_intersect(a: Recti, b: Recti) -> Recti {
    Recti {
        x: inter_x(a, b) as i32,
        y: inter_y(a, b) as i32,
        width: (inter_right(a, b) - inter_x(a, b)) as i32,
        height: (inter_bottom(a, b) - inter_y(a, b)) as i32,
    }
}

/// True when the intersection of the two rectangles has positive area.
pub open spec fn overlaps(a: Recti, b: Recti) -> bool {
    inter_right(a, b) - inter_x(a, b) > 0 && inter_bottom(a, b) - inter_y(a, b) > 0
}

pub fn intersect(a: &Recti, b: &Recti) -> (r: Recti)
    ensures
        r == spec_intersect(*a, *b),
{
    let x: i32 = if a.x >= b.x {
        a.x
    } else {
        b.x
    };
    let y: i32 = if a.y >= b.y {
        a.y
    } else {
        b.y
    };
    let ar: i64 = a.x as i64 + a.width as i64;
    let br: i64 = b.x as i64 + b.width as i64;
    let right: i64 = if ar <= br {
        ar
    } else {
        br
    };
    let right: i64 = if right >= x as i64 {
        right
    } else {
        x as i64
    };
    let ab: i64 = a.y as i64 + a.height as i64;
    let bb: i64 = b.y as i64 + b.height as i64;
    let bottom: i64 = if ab <= bb {
        ab
    } else {
        bb
    };
    let bottom: i64 = if bottom >= y as i64 {
        bottom
    } else {
        y as i64
    };
    assert(0 <= right - x as i64 <= i32::MAX as i64);
    assert(0 <= bottom - y as i64 <= i32::MAX as i64);
    Recti { x, y, width: (right - x as i64) as i32, height: (bottom - y as i64) as i32 }
}

/// True when the point lies inside the rectangle (edges: left/top inclusive,
/// right/bottom exclusive).
pub open spec fn rect_contains(r: Recti, p: Vec2i) -> bool {
    r.x <= p.x && (p.x as int) < r.x + r.width && r.y <= p.y && (p.y as int) < r.y + r.height
}

pub fn contains_point(r: &Recti, p: Vec2i) -> (b: bool)
    ensures
        b == rect_contains(*r, p),
{
    p.x >= r.x && (p.x as i64) < r.x as i64 + r.width as i64 && p.y >= r.y && (p.y as i64) < r.y
        as i64 + r.height as i64
}

/// The rectangle shrunk inward by `n` on every side (saturating); used to
/// carve a padded layout region out of a container body.
pub open spec fn spec_shrink(r: Recti, n: int) -> Recti {
    Recti {
        x: sat_add(r.x as int, n) as i32,
        y: sat_add(r.y as int, n) as i32,
        width: sat_sub(r.width as int, 2 * n) as i32,
        height: sat_sub(r.height as int, 2 * n) as i32,
    }
}

pub fn shrink(r: &Recti, n: i32) -> (s: Recti)
    requires
        0 <= n,
    ensures
        s == spec_shrink(*r, n as int),
{
    let two_n: i64 = 2 * n as i64;
    let w: i64 = r.width as i64 - two_n;
    let w: i32 = if w > i32::MAX as i64 {
        i32::MAX
    } else if w < i32::MIN as i64 {
        i32::MIN
    } else {
        w as i32
    };
    let h: i64 = r.height as i64 - two_n;
    let h: i32 = if h > i32::MAX as i64 {
        i32::MAX
    } else if h < i32::MIN as i64 {
        i32::MIN
    } else {
        h as i32
    };
    Recti { x: add_sat(r.x, n), y: add_sat(r.y, n), width: w, height: h }
}

pub open spec fn max2(a: int, b: int) -> int {
    if a >= b {
        a
    } else {
        b
    }
}

pub fn max_i32(a: i32, b: i32) -> (r: i32)
    ensures
        r as int == max2(a as int, b as int),
{
    if a >= b {
        a
    } else {
        b
    }
}

/// A clip rectangle so large that it clips nothing a container will ever
/// draw; the active clip while the clip stack is empty.
pub open spec fn spec_unclipped() -> Recti {
    Recti { x: 0, y: 0, width: 0x1000000, height: 0x1000000 }
}

pub fn unclipped_rect() -> (r: Recti)
    ensures
        r == spec_unclipped(),
{
    Recti { x: 0, y: 0, width: 0x1000000, height: 0x1000000 }
}

} // verus!
