//! Integer 2-D geometry: positions, rectangles and translation transforms.
//!
//! Coordinates are fixed-point screen units held in `i64`. Values fed in
//! from the outside (widget rectangles, layer transforms, pointer
//! positions, text layout) are expected to satisfy [`coord_ok`]; values
//! derived from them (compositions, transformed rectangles) stay within
//! [`coord_wide`], which leaves ample headroom in `i64` for every
//! arithmetic step the selection engine performs.

use vstd::prelude::*;

verus! {

/// Largest magnitude of a raw input coordinate.
pub const COORD_MAX: i64 = 0x1_0000_0000;

/// A raw input coordinate: bounded by [`COORD_MAX`].
pub open spec fn coord_ok(x: int) -> bool {
    -COORD_MAX <= x <= COORD_MAX
}

/// A derived coordinate: bounded by eight times [`COORD_MAX`].
pub open spec fn coord_wide(x: int) -> bool {
    -8 * (COORD_MAX as int) <= x <= 8 * (COORD_MAX as int)
}

/// A point in a 2-D coordinate space.
#[derive(Clone, Copy, PartialEq, Eq, Structural, Debug)]
pub struct Pos {
    pub x: i64,
    pub y: i64,
}

impl Pos {
    /// Both coordinates are raw-input bounded.
    pub open spec fn wf(self) -> bool {
        coord_ok(self.x as int) && coord_ok(self.y as int)
    }

    /// Both coordinates are derived-value bounded.
    pub open spec fn wide(self) -> bool {
        coord_wide(self.x as int) && coord_wide(self.y as int)
    }

    pub fn new(x: i64, y: i64) -> (r: Pos)
        ensures
            r.x == x,
            r.y == y,
    {
        Pos { x, y }
    }
}

/// An axis-aligned rectangle. `min` may exceed `max` on either axis,
/// in which case the rectangle is empty (as after a disjoint intersection).
#[derive(Clone, Copy, PartialEq, Eq, Structural, Debug)]
pub struct Rect {
    pub min: Pos,
    pub max: Pos,
}

impl Rect {
    pub open spec fn wf(self) -> bool {
        self.min.wf() && self.max.wf()
    }

    pub open spec fn wide(self) -> bool {
        self.min.wide() && self.max.wide()
    }

    /// Bottom edge (y grows downward on screen).
    pub open spec fn spec_bottom(self) -> int {
        self.max.y as int
    }

    /// Top edge.
    pub open spec fn spec_top(self) -> int {
        self.min.y as int
    }

    pub fn new(min: Pos, max: Pos) -> (r: Rect)
        ensures
            r.min == min,
            r.max == max,
    {
        Rect { min, max }
    }

    pub fn from_min_size(min: Pos, size_x: i64, size_y: i64) -> (r: Rect)
        requires
            i64::MIN <= min.x + size_x <= i64::MAX,
            i64::MIN <= min.y + size_y <= i64::MAX,
        ensures
            r.min == min,
            r.max.x == min.x + size_x,
            r.max.y == min.y + size_y,
    {
        Rect { min, max: Pos { x: min.x + size_x, y: min.y + size_y } }
    }

    pub fn bottom(&self) -> (r: i64)
        ensures
            r == self.spec_bottom(),
    {
        self.max.y
    }

    pub fn top(&self) -> (r: i64)
        ensures
            r == self.spec_top(),
    {
        self.min.y
    }

    /// Intersection; empty inputs or disjoint inputs give an empty
    /// (min > max) result on the separating axis.
    pub fn intersect(&self, other: &Rect) -> (r: Rect)
        ensures
            r.min.x == max_i64(self.min.x, other.min.x),
            r.min.y == max_i64(self.min.y, other.min.y),
            r.max.x == min_i64(self.max.x, other.max.x),
            r.max.y == min_i64(self.max.y, other.max.y),
    {
        Rect {
            min: Pos { x: imax(self.min.x, other.min.x), y: imax(self.min.y, other.min.y) },
            max: Pos { x: imin(self.max.x, other.max.x), y: imin(self.max.y, other.max.y) },
        }
    }

    /// Smallest rectangle containing both.
    pub open spec fn spec_union(a: Rect, b: Rect) -> Rect {
        Rect {
            min: Pos { x: min_i64(a.min.x, b.min.x), y: min_i64(a.min.y, b.min.y) },
            max: Pos { x: max_i64(a.max.x, b.max.x), y: max_i64(a.max.y, b.max.y) },
        }
    }

    pub fn union(&self, other: &Rect) -> (r: Rect)
        ensures
            r == Rect::spec_union(*self, *other),
            r.min.x == min_i64(self.min.x, other.min.x),
            r.min.y == min_i64(self.min.y, other.min.y),
            r.max.x == max_i64(self.max.x, other.max.x),
            r.max.y == max_i64(self.max.y, other.max.y),
    {
        Rect {
            min: Pos { x: imin(self.min.x, other.min.x), y: imin(self.min.y, other.min.y) },
            max: Pos { x: imax(self.max.x, other.max.x), y: imax(self.max.y, other.max.y) },
        }
    }

    /// Do the horizontal extents of `self` and `other` overlap?
    pub fn x_overlaps(&self, other: &Rect) -> (r: bool)
        ensures
            r == (self.min.x <= other.max.x && other.min.x <= self.max.x),
    {
        self.min.x <= other.max.x && other.min.x <= self.max.x
    }

    /// Is `other` entirely inside `self`?
    pub open spec fn spec_contains_rect(a: Rect, b: Rect) -> bool {
        a.min.x <= b.min.x && b.max.x <= a.max.x && a.min.y <= b.min.y && b.max.y <= a.max.y
    }

    pub fn contains_rect(&self, other: &Rect) -> (r: bool)
        ensures
            r == Rect::spec_contains_rect(*self, *other),
    {
        self.min.x <= other.min.x && other.max.x <= self.max.x && self.min.y <= other.min.y
            && other.max.y <= self.max.y
    }
}

/// The smaller of two coordinates.
pub open spec fn min_i64(a: i64, b: i64) -> i64 {
    if a <= b {
        a
    } else {
        b
    }
}

/// The larger of two coordinates.
pub open spec fn max_i64(a: i64, b: i64) -> i64 {
    if a <= b {
        b
    } else {
        a
    }
}

pub fn imin(a: i64, b: i64) -> (r: i64)
    ensures
        r == min_i64(a, b),
{
    if a <= b {
        a
    } else {
        b
    }
}

pub fn imax(a: i64, b: i64) -> (r: i64)
    ensures
        r == max_i64(a, b),
{
    if a <= b {
        b
    } else {
        a
    }
}

/// A transform between two coordinate spaces.
///
/// The surrounding toolkit's layer transforms are similarity transforms;
/// this engine models the translation part, which is what the selection
/// logic composes, inverts and applies.
#[derive(Clone, Copy, PartialEq, Eq, Structural, Debug)]
pub struct Transform {
    pub dx: i64,
    pub dy: i64,
}

impl Transform {
    pub open spec fn wf(self) -> bool {
        coord_ok(self.dx as int) && coord_ok(self.dy as int)
    }

    pub open spec fn wide(self) -> bool {
        coord_wide(self.dx as int) && coord_wide(self.dy as int)
    }

    /// The identity transform.
    pub fn identity() -> (r: Transform)
        ensures
            r.dx == 0,
            r.dy == 0,
    {
        Transform { dx: 0, dy: 0 }
    }

    /// The transform that moves the origin to `v`.
    pub fn from_translation(v: Pos) -> (r: Transform)
        ensures
            r.dx == v.x,
            r.dy == v.y,
    {
        Transform { dx: v.x, dy: v.y }
    }

    /// `self` applied after `inner`.
    pub fn compose(&self, inner: &Transform) -> (r: Transform)
        requires
            i64::MIN <= self.dx + inner.dx <= i64::MAX,
            i64::MIN <= self.dy + inner.dy <= i64::MAX,
        ensures
            r.dx == self.dx + inner.dx,
            r.dy == self.dy + inner.dy,
    {
        Transform { dx: self.dx + inner.dx, dy: self.dy + inner.dy }
    }

    /// The transform undoing `self`.
    pub fn inverse(&self) -> (r: Transform)
        requires
            i64::MIN < self.dx,
            i64::MIN < self.dy,
        ensures
            r.dx == -self.dx,
            r.dy == -self.dy,
    {
        Transform { dx: -self.dx, dy: -self.dy }
    }

    /// Where `self` takes the point `p`.
    pub fn apply(&self, p: Pos) -> (r: Pos)
        requires
            i64::MIN <= p.x + self.dx <= i64::MAX,
            i64::MIN <= p.y + self.dy <= i64::MAX,
        ensures
            r.x == p.x + self.dx,
            r.y == p.y + self.dy,
    {
        Pos { x: p.x + self.dx, y: p.y + self.dy }
    }

    /// Where `self` takes the rectangle `r`.
    pub fn apply_rect(&self, r: &Rect) -> (res: Rect)
        requires
            i64::MIN <= r.min.x + self.dx <= i64::MAX,
            i64::MIN <= r.min.y + self.dy <= i64::MAX,
            i64::MIN <= r.max.x + self.dx <= i64::MAX,
            i64::MIN <= r.max.y + self.dy <= i64::MAX,
        ensures
            res.min.x == r.min.x + self.dx,
            res.min.y == r.min.y + self.dy,
            res.max.x == r.max.x + self.dx,
            res.max.y == r.max.y + self.dy,
    {
        Rect { min: self.apply(r.min), max: self.apply(r.max) }
    }
}

} // verus!
