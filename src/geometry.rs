use vstd::prelude::*;

verus! {

/// Largest magnitude of a rectangle field accepted by the overlap test.
pub const RECT_BOUND: i64 = 0x1000_0000_0000_0000;

/// Largest magnitude of a point coordinate accepted by the distance.
pub const POINT_BOUND: i64 = 0x8000_0000;

/// A point or offset of the plane, in fixed-point units.
#[derive(Debug, Clone, Copy, PartialEq, Eq, Structural)]
pub struct Vec2 {
    pub x: i64,
    pub y: i64,
}

/// Square of the Euclidean distance between two points.
pub open spec fn dist_sq(a: Vec2, b: Vec2) -> int {
    (b.x - a.x) * (b.x - a.x) + (b.y - a.y) * (b.y - a.y)
}

/// `r` is the integer part of the square root of `n`.
pub open spec fn is_floor_sqrt(r: int, n: int) -> bool {
    0 <= r && r * r <= n < (r + 1) * (r + 1)
}

impl Vec2 {
    pub open spec fn bounded(self) -> bool {
        -POINT_BOUND <= self.x <= POINT_BOUND && -POINT_BOUND <= self.y <= POINT_BOUND
    }

    pub fn new(x: i64, y: i64) -> (r: Vec2)
        ensures
            r.x == x,
            r.y == y,
    {
        Vec2 { x, y }
    }

    /// Euclidean distance to `other`, rounded down to a whole unit.
    pub fn distance(&self, other: Vec2) -> (r: u64)
        requires
            self.bounded(),
            other.bounded(),
        ensures
            is_floor_sqrt(r as int, dist_sq(*self, other)),
    {
        let dx: i128 = other.x as i128 - self.x as i128;
        let dy: i128 = other.y as i128 - self.y as i128;
        assert(0 <= dx * dx <= 0x1_0000_0000_0000_0000) by (nonlinear_arith)
            requires
                -0x1_0000_0000 <= dx <= 0x1_0000_0000,
        ;
        assert(0 <= dy * dy <= 0x1_0000_0000_0000_0000) by (nonlinear_arith)
            requires
                -0x1_0000_0000 <= dy <= 0x1_0000_0000,
        ;
        let n: u128 = (dx * dx + dy * dy) as u128;
        floor_sqrt(n)
    }
}

/// Integer square root by bisection.
fn floor_sqrt(n: u128) -> (r: u64)
    requires
        n <= 0x4_0000_0000_0000_0000,
    ensures
        is_floor_sqrt(r as int, n as int),
{
    let mut lo: u128 = 0;
    let mut hi: u128 = 0x4_0000_0000;
    assert(n < hi * hi) by (nonlinear_arith)
        requires
            n <= 0x4_0000_0000_0000_0000,
            hi == 0x4_0000_0000,
    ;
    while hi - lo > 1
        invariant
            lo < hi <= 0x4_0000_0000,
            lo * lo <= n,
            n < hi * hi,
        decreases hi - lo,
    {
        let mid: u128 = lo + (hi - lo) / 2;
        assert(mid * mid <= 0x10_0000_0000_0000_0000) by (nonlinear_arith)
            requires
                mid <= 0x4_0000_0000,
        ;
        if mid * mid <= n {
            lo = mid;
        } else {
            hi = mid;
        }
    }
    assert(hi == lo + 1);
    lo as u64
}

/// An axis-aligned rectangle: top-left corner `(x, y)`, width `w`, height `h`.
#[derive(Debug, Clone, Copy, PartialEq, Eq, Structural)]
pub struct FRect {
    pub x: i64,
    pub y: i64,
    pub w: i64,
    pub h: i64,
}

pub open spec fn max_int(a: int, b: int) -> int {
    if a >= b {
        a
    } else {
        b
    }
}

pub open spec fn min_int(a: int, b: int) -> int {
    if a <= b {
        a
    } else {
        b
    }
}

/// Width of the overlap of `a` and `b` (positive only when they overlap).
pub open spec fn overlap_w(a: FRect, b: FRect) -> int {
    min_int(a.x + a.w, b.x + b.w) - max_int(a.x as int, b.x as int)
}

/// Height of the overlap of `a` and `b` (positive only when they overlap).
pub open spec fn overlap_h(a: FRect, b: FRect) -> int {
    min_int(a.y + a.h, b.y + b.h) - max_int(a.y as int, b.y as int)
}

/// `a` and `b` share an area: edge-touching rectangles do not overlap.
pub open spec fn overlaps(a: FRect, b: FRect) -> bool {
    overlap_w(a, b) > 0 && overlap_h(a, b) > 0
}

impl FRect {
    pub open spec fn bounded(self) -> bool {
        -RECT_BOUND <= self.x <= RECT_BOUND && -RECT_BOUND <= self.y <= RECT_BOUND
            && -RECT_BOUND <= self.w <= RECT_BOUND && -RECT_BOUND <= self.h <= RECT_BOUND
    }

    pub fn new(x: i64, y: i64, w: i64, h: i64) -> (r: FRect)
        ensures
            r == (FRect { x, y, w, h }),
    {
        FRect { x, y, w, h }
    }

    /// The overlap of `self` and `other`, or `None` where they do not share
    /// an area.
    pub fn intersect(&self, other: FRect) -> (r: Option<FRect>)
        requires
            self.bounded(),
            other.bounded(),
        ensures
            r.is_some() == overlaps(*self, other),
            r.is_some() ==> r == Some(
                FRect {
                    x: max_int(self.x as int, other.x as int) as i64,
                    y: max_int(self.y as int, other.y as int) as i64,
                    w: overlap_w(*self, other) as i64,
                    h: overlap_h(*self, other) as i64,
                },
            ),
    {
        let rx = if self.x >= other.x {
            self.x
        } else {
            other.x
        };
        let ry = if self.y >= other.y {
            self.y
        } else {
            other.y
        };
        let sr = self.x + self.w;
        let or = other.x + other.w;
        let sb = self.y + self.h;
        let ob = other.y + other.h;
        let rw = (if sr <= or {
            sr
        } else {
            or
        }) - rx;
        let rh = (if sb <= ob {
            sb
        } else {
            ob
        }) - ry;
        if rw > 0 && rh > 0 {
            Some(FRect::new(rx, ry, rw, rh))
        } else {
            None
        }
    }
}

/// The overlap test does not depend on the order of its arguments.
pub proof fn lemma_overlaps_symmetric(a: FRect, b: FRect)
    ensures
        overlaps(a, b) == overlaps(b, a),
{
}

} // verus!
