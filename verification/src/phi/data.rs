//! Axis-aligned rectangles in logical playfield coordinates.
//!
//! Coordinates are exact integers counting thousandths of a logical pixel
//! (millipixels), so every spatial rule of the engine is decided by integer
//! comparisons. A rectangle is well formed when its extents are non-negative
//! and everything stays within `COORD_BOUND`, which leaves ample headroom for
//! the sums the containment and clamping rules need.

use vstd::prelude::*;

verus! {

/// Number of millipixels in one logical pixel.
pub const PIXEL: i64 = 1000;

/// Magnitude bound on screen and texture extents, in millipixels: a hundred
/// thousand logical pixels, far beyond any real window, yet small enough
/// that scaling products stay far from `i64` overflow.
pub const SCREEN_BOUND: i64 = 100_000_000;

/// Magnitude bound on all rectangle coordinates and extents, in millipixels.
/// Generous enough for any realistic playfield (a billion pixels) while
/// keeping the engine's sums and differences far from `i64` overflow.
pub const COORD_BOUND: i64 = 1_000_000_000_000;

/// An axis-aligned rectangle: position of its top-left corner and extents,
/// in millipixels.
#[derive(Clone, Copy, PartialEq, Eq, Structural, Debug)]
pub struct Rectangle {
    pub x: i64,
    pub y: i64,
    pub w: i64,
    pub h: i64,
}

impl Rectangle {
    /// Non-negative extents, with position and extents within `m`.
    pub open spec fn in_box(self, m: int) -> bool {
        &&& 0 <= self.w <= m
        &&& 0 <= self.h <= m
        &&& -m <= self.x <= m
        &&& -m <= self.y <= m
    }

    /// Well-formedness: non-negative extents, everything within bounds.
    pub open spec fn wf(self) -> bool {
        self.in_box(COORD_BOUND as int)
    }

    /// `self` fully contains `other`: every edge of `other` lies on or inside
    /// the corresponding edge of `self`.
    pub open spec fn spec_contains(self, other: Rectangle) -> bool {
        &&& other.x >= self.x
        &&& other.y >= self.y
        &&& other.x + other.w <= self.x + self.w
        &&& other.y + other.h <= self.y + self.h
    }

    /// Containment test: is `other` fully inside `self`?
    pub fn contains(&self, other: Rectangle) -> (r: bool)
        requires
            self.in_box(2 * COORD_BOUND as int),
            other.in_box(2 * COORD_BOUND as int),
        ensures
            r == self.spec_contains(other),
    {
        other.x >= self.x && other.y >= self.y && other.x + other.w <= self.x + self.w
            && other.y + other.h <= self.y + self.h
    }

    /// Where `move_inside` puts the rectangle: each axis is clamped
    /// independently so the rectangle lies inside `bound`.
    pub open spec fn spec_move_inside(self, bound: Rectangle) -> Rectangle {
        Rectangle {
            x: clamp_i64(self.x, bound.x, (bound.x + bound.w - self.w) as i64),
            y: clamp_i64(self.y, bound.y, (bound.y + bound.h - self.h) as i64),
            w: self.w,
            h: self.h,
        }
    }

    /// Translate the rectangle (keeping its size) so that it lies fully
    /// inside `bound`, clamping each axis independently. Fails exactly when
    /// the rectangle is wider or taller than `bound`.
    pub fn move_inside(&self, bound: Rectangle) -> (r: Option<Rectangle>)
        requires
            self.wf(),
            bound.wf(),
        ensures
            r is Some <==> self.w <= bound.w && self.h <= bound.h,
            r matches Some(moved) ==> moved == self.spec_move_inside(bound),
            r matches Some(moved) ==> bound.spec_contains(moved) && moved.wf(),
    {
        if self.w > bound.w || self.h > bound.h {
            return None;
        }
        let max_x = bound.x + bound.w - self.w;
        let max_y = bound.y + bound.h - self.h;
        let x = if self.x < bound.x {
            bound.x
        } else if self.x > max_x {
            max_x
        } else {
            self.x
        };
        let y = if self.y < bound.y {
            bound.y
        } else if self.y > max_y {
            max_y
        } else {
            self.y
        };
        Some(Rectangle { x, y, w: self.w, h: self.h })
    }
}

/// `v` clamped into `[lo, hi]` (callers arrange `lo <= hi`).
pub open spec fn clamp_i64(v: i64, lo: i64, hi: i64) -> i64 {
    if v < lo {
        lo
    } else if v > hi {
        hi
    } else {
        v
    }
}

/// `n / d` rounded towards zero, as machine division does.
pub open spec fn spec_div_trunc(n: int, d: int) -> int {
    if n >= 0 {
        n / d
    } else {
        -((-n) / d)
    }
}

/// Division rounding towards zero.
pub fn div_trunc(n: i64, d: i64) -> (r: i64)
    requires
        1 <= d,
        i64::MIN < n,
    ensures
        r == spec_div_trunc(n as int, d as int),
        n >= 0 ==> 0 <= r <= n,
        n < 0 ==> n <= r <= 0,
{
    proof {
        if n >= 0 {
            vstd::arithmetic::div_mod::lemma_div_pos_is_pos(n as int, d as int);
            vstd::arithmetic::div_mod::lemma_div_nonincreasing(n as int, d as int);
        } else {
            vstd::arithmetic::div_mod::lemma_div_pos_is_pos(-(n as int), d as int);
            vstd::arithmetic::div_mod::lemma_div_nonincreasing(-(n as int), d as int);
        }
    }
    if n >= 0 {
        ((n as u64) / (d as u64)) as i64
    } else {
        let m = ((0 - n) as u64) / (d as u64);
        0 - (m as i64)
    }
}

/// Law: repositioning succeeds exactly when the rectangle fits in the bound
/// on both axes, and whenever it succeeds the result lies fully inside the
/// bound and keeps its size.
pub proof fn lemma_move_inside_contained(a: Rectangle, b: Rectangle)
    requires
        a.wf(),
        b.wf(),
        a.w <= b.w,
        a.h <= b.h,
    ensures
        b.spec_contains(a.spec_move_inside(b)),
        a.spec_move_inside(b).w == a.w,
        a.spec_move_inside(b).h == a.h,
{
}

} // verus!
