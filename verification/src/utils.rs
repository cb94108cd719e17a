//! Screen-space rectangles and the overlap test that assigns a taskbar to a
//! monitor.
//!
//! Coordinates follow the native convention: `left`/`top` inclusive,
//! `right`/`bottom` exclusive, y growing downward. A taskbar is considered to
//! belong to a monitor when at least four fifths of the taskbar's area lies
//! inside the monitor's rectangle; the ratio is compared in exact integer
//! arithmetic.

use vstd::prelude::*;

verus! {

/// An axis-aligned rectangle in screen coordinates.
#[derive(Clone, Copy, Debug, PartialEq, Eq, Structural)]
pub struct Rect {
    pub left: i32,
    pub top: i32,
    pub right: i32,
    pub bottom: i32,
}

/// Width of `r`, never negative even for a degenerate rectangle.
pub open spec fn spec_width(r: Rect) -> int {
    if r.right >= r.left {
        r.right - r.left
    } else {
        0
    }
}

/// Height of `r`, never negative even for a degenerate rectangle.
pub open spec fn spec_height(r: Rect) -> int {
    if r.bottom >= r.top {
        r.bottom - r.top
    } else {
        0
    }
}

/// Area of `r`.
pub open spec fn spec_area(r: Rect) -> int {
    spec_width(r) * spec_height(r)
}

/// Whether `a` and `b` share at least one interior point.
pub open spec fn spec_intersects(a: Rect, b: Rect) -> bool {
    !(b.left >= a.right || b.right <= a.left || b.top >= a.bottom || b.bottom <= a.top)
}

/// Width of the intersection of `a` and `b`, zero when they are disjoint
/// horizontally.
pub open spec fn spec_overlap_width(a: Rect, b: Rect) -> int {
    let lo = if a.left >= b.left {
        a.left as int
    } else {
        b.left as int
    };
    let hi = if a.right <= b.right {
        a.right as int
    } else {
        b.right as int
    };
    if hi >= lo {
        hi - lo
    } else {
        0
    }
}

/// Height of the intersection of `a` and `b`, zero when they are disjoint
/// vertically.
pub open spec fn spec_overlap_height(a: Rect, b: Rect) -> int {
    let lo = if a.top >= b.top {
        a.top as int
    } else {
        b.top as int
    };
    let hi = if a.bottom <= b.bottom {
        a.bottom as int
    } else {
        b.bottom as int
    };
    if hi >= lo {
        hi - lo
    } else {
        0
    }
}

/// Area that `a` and `b` have in common.
pub open spec fn spec_overlap_area(a: Rect, b: Rect) -> int {
    spec_overlap_width(a, b) * spec_overlap_height(a, b)
}

/// `other` belongs to `self` when the rectangles intersect, `other` has
/// positive area, and at least four fifths of `other`'s area lies inside
/// `self`.
pub open spec fn spec_contains(a: Rect, b: Rect) -> bool {
    &&& spec_intersects(a, b)
    &&& spec_area(b) > 0
    &&& 5 * spec_overlap_area(a, b) >= 4 * spec_area(b)
}

/// Overlap queries between two rectangles.
pub trait RECTExt: Sized {
    /// The relation that `contains` decides.
    spec fn spec_contains_ext(&self, other: &Self) -> bool;

    /// The relation that `intersects` decides.
    spec fn spec_intersects_ext(&self, other: &Self) -> bool;

    /// Decides whether `other` belongs to `self` for the purpose of pairing a
    /// taskbar with a monitor.
    fn contains(&self, other: &Self) -> (r: bool)
        ensures
            r == self.spec_contains_ext(other),
    ;

    /// Decides whether the two rectangles overlap at all.
    fn intersects(&self, other: &Self) -> (r: bool)
        ensures
            r == self.spec_intersects_ext(other),
    ;
}

impl RECTExt for Rect {
    open spec fn spec_contains_ext(&self, other: &Self) -> bool {
        spec_contains(*self, *other)
    }

    open spec fn spec_intersects_ext(&self, other: &Self) -> bool {
        spec_intersects(*self, *other)
    }

    fn contains(&self, other: &Self) -> (r: bool) {
        if !self.intersects(other) {
            return false;
        }

        let overlap_left: i64 = if self.left >= other.left {
            self.left as i64
        } else {
            other.left as i64
        };
        let overlap_top: i64 = if self.top >= other.top {
            self.top as i64
        } else {
            other.top as i64
        };
        let overlap_right: i64 = if self.right <= other.right {
            self.right as i64
        } else {
            other.right as i64
        };
        let overlap_bottom: i64 = if self.bottom <= other.bottom {
            self.bottom as i64
        } else {
            other.bottom as i64
        };

        let overlap_width: i64 = if overlap_right >= overlap_left {
            overlap_right - overlap_left
        } else {
            0
        };
        let overlap_height: i64 = if overlap_bottom >= overlap_top {
            overlap_bottom - overlap_top
        } else {
            0
        };
        proof {
            assert(overlap_width as int * overlap_height as int <= 0x1_0000_0000_0000_0000)
                by (nonlinear_arith)
                requires
                    0 <= overlap_width <= 0x1_0000_0000,
                    0 <= overlap_height <= 0x1_0000_0000,
            ;
        }
        let overlap_area: i128 = overlap_width as i128 * overlap_height as i128;

        let other_width: i64 = if other.right >= other.left {
            other.right as i64 - other.left as i64
        } else {
            0
        };
        let other_height: i64 = if other.bottom >= other.top {
            other.bottom as i64 - other.top as i64
        } else {
            0
        };
        proof {
            assert(other_width as int * other_height as int <= 0x1_0000_0000_0000_0000)
                by (nonlinear_arith)
                requires
                    0 <= other_width <= 0x1_0000_0000,
                    0 <= other_height <= 0x1_0000_0000,
            ;
            assert(other_width as int * other_height as int >= 0) by (nonlinear_arith)
                requires
                    0 <= other_width,
                    0 <= other_height,
            ;
            assert(overlap_width as int * overlap_height as int >= 0) by (nonlinear_arith)
                requires
                    0 <= overlap_width,
                    0 <= overlap_height,
            ;
        }
        let other_area: i128 = other_width as i128 * other_height as i128;

        other_area > 0 && 5 * overlap_area >= 4 * other_area
    }

    fn intersects(&self, other: &Self) -> (r: bool) {
        !(other.left >= self.right || other.right <= self.left || other.top >= self.bottom
            || other.bottom <= self.top)
    }
}

} // verus!
