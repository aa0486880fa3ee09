//! Plain integer geometry: points, sizes, bounding boxes, and the small
//! arithmetic helpers the layout and routing code build on.

use vstd::prelude::*;

verus! {

/// Largest magnitude a caller-supplied coordinate may have. Derived values
/// (box corners, route jogs) stay within a small slack of this bound, so all
/// arithmetic below fits comfortably in `i64`.
pub const COORD_LIMIT: i64 = 1_000_000_000;

/// Largest width or height a node's bounding box may have.
pub const DIM_LIMIT: i64 = 1_000_000;

/// A position on the canvas.
#[derive(Clone, Copy, Debug, PartialEq, Eq, Structural)]
pub struct Point {
    pub x: i64,
    pub y: i64,
}

/// The extent of a box.
#[derive(Clone, Copy, Debug, PartialEq, Eq, Structural)]
pub struct Size {
    pub width: i64,
    pub height: i64,
}

/// An axis-aligned bounding box: top-left corner plus extent.
#[derive(Clone, Copy, Debug, PartialEq, Eq, Structural)]
pub struct Bounds {
    pub origin: Point,
    pub size: Size,
}

pub open spec fn coord_within(c: int, limit: int) -> bool {
    -limit <= c <= limit
}

pub open spec fn point_within(p: Point, limit: int) -> bool {
    coord_within(p.x as int, limit) && coord_within(p.y as int, limit)
}

pub open spec fn point_ok(p: Point) -> bool {
    point_within(p, COORD_LIMIT as int)
}

pub open spec fn size_ok(s: Size) -> bool {
    0 < s.width <= DIM_LIMIT && 0 < s.height <= DIM_LIMIT
}

/// A well-formed box has a positive extent and lies, corners included,
/// within the coordinate limit.
pub open spec fn bounds_ok(b: Bounds) -> bool {
    &&& size_ok(b.size)
    &&& point_ok(b.origin)
    &&& coord_within(b.origin.x + b.size.width, COORD_LIMIT as int)
    &&& coord_within(b.origin.y + b.size.height, COORD_LIMIT as int)
}

impl Bounds {
    /// Midpoint of the bottom edge; edge routes leave a node here.
    pub fn bottom_center(self) -> (p: Point)
        requires
            bounds_ok(self),
        ensures
            p.x == self.origin.x + self.size.width / 2,
            p.y == self.origin.y + self.size.height,
            point_ok(p),
    {
        let half_w = div_trunc(self.size.width, 2);
        Point { x: self.origin.x + half_w, y: self.origin.y + self.size.height }
    }

    /// Midpoint of the top edge; edge routes enter a node here.
    pub fn top_center(self) -> (p: Point)
        requires
            bounds_ok(self),
        ensures
            p.x == self.origin.x + self.size.width / 2,
            p.y == self.origin.y,
            point_ok(p),
    {
        let half_w = div_trunc(self.size.width, 2);
        Point { x: self.origin.x + half_w, y: self.origin.y }
    }

    /// The x coordinate of the right edge.
    pub fn right_x(self) -> (x: i64)
        requires
            bounds_ok(self),
        ensures
            x == self.origin.x + self.size.width,
            coord_within(x as int, COORD_LIMIT as int),
    {
        self.origin.x + self.size.width
    }

    /// The box translated so that `center` becomes its midpoint (up to the
    /// rounding of odd extents).
    pub fn centered_at(center: Point, size: Size) -> (b: Bounds)
        requires
            size_ok(size),
            point_within(center, COORD_LIMIT as int - DIM_LIMIT as int),
        ensures
            b.size == size,
            b.origin.x == center.x - size.width / 2,
            b.origin.y == center.y - size.height / 2,
            bounds_ok(b),
    {
        let half_w = div_trunc(size.width, 2);
        let half_h = div_trunc(size.height, 2);
        Bounds {
            origin: Point { x: center.x - half_w, y: center.y - half_h },
            size,
        }
    }
}

/// Truncating division of `a` by a positive divisor, phrased over the
/// Euclidean `/` of specifications on non-negative operands.
pub open spec fn div_trunc_spec(a: int, d: int) -> int {
    if a >= 0 {
        a / d
    } else {
        -((-a) / d)
    }
}

/// `a / d` with truncation toward zero.
pub fn div_trunc(a: i64, d: i64) -> (q: i64)
    requires
        d > 0,
        a > i64::MIN,
    ensures
        q == div_trunc_spec(a as int, d as int),
        a >= 0 ==> 0 <= q <= a,
        a < 0 ==> a <= q <= 0,
{
    if a >= 0 {
        let q = ((a as u64) / (d as u64)) as i64;
        proof {
            lemma_div_shrinks(a as int, d as int);
        }
        q
    } else {
        let m = ((-a) as u64) / (d as u64);
        proof {
            lemma_div_shrinks((-a) as int, d as int);
        }
        -(m as i64)
    }
}

/// For non-negative `a` and positive `d`, the quotient stays within `[0, a]`.
pub proof fn lemma_div_shrinks(a: int, d: int)
    requires
        a >= 0,
        d >= 1,
    ensures
        0 <= a / d <= a,
{
    assert(0 <= a / d <= a) by (nonlinear_arith)
        requires
            a >= 0,
            d >= 1,
    ;
}

/// `v` forced into `[-limit, limit]`.
pub open spec fn clamp_spec(v: int, limit: int) -> int {
    if v < -limit {
        -limit
    } else if v > limit {
        limit
    } else {
        v
    }
}

pub fn clamp(v: i64, limit: i64) -> (r: i64)
    requires
        0 < limit,
    ensures
        r == clamp_spec(v as int, limit as int),
        -limit <= r <= limit,
{
    if v < -limit {
        -limit
    } else if v > limit {
        limit
    } else {
        v
    }
}

/// Integer square root: the largest `r` with `r * r <= n`.
pub fn isqrt(n: u64) -> (r: u64)
    requires
        n <= 9_000_000_000_000_000_000,
    ensures
        r * r <= n,
        n < (r + 1) * (r + 1),
        r <= 3_000_000_000,
{
    let mut lo: u64 = 0;
    let mut hi: u64 = 3_000_000_000;
    proof {
        assert((3_000_000_000u64 + 1) * (3_000_000_000u64 + 1) > 9_000_000_000_000_000_000) by (nonlinear_arith);
    }
    while lo < hi
        invariant
            lo <= hi <= 3_000_000_000,
            lo * lo <= n,
            n < (hi + 1) * (hi + 1),
        decreases hi - lo,
    {
        let mid = lo + (hi - lo + 1) / 2;
        proof {
            assert(lo < mid <= hi);
            assert(mid * mid <= 3_000_000_000 * 3_000_000_000) by (nonlinear_arith)
                requires
                    0 <= mid <= 3_000_000_000u64,
            ;
        }
        if mid * mid <= n {
            lo = mid;
        } else {
            hi = mid - 1;
        }
    }
    lo
}

/// Multiply then divide, truncating toward zero: `(a * b) / d`.
pub open spec fn mul_div_spec(a: int, b: int, d: int) -> int {
    div_trunc_spec(a * b, d)
}

pub open spec fn abs_spec(a: int) -> int {
    if a >= 0 {
        a
    } else {
        -a
    }
}

/// `(a * b) / d`, truncating toward zero, for products that fit in `i64`.
pub fn mul_div(a: i64, b: i64, d: i64) -> (r: i64)
    requires
        d > 0,
        a > i64::MIN,
        b > i64::MIN,
        abs_spec(a as int) * abs_spec(b as int) <= i64::MAX,
    ensures
        r == mul_div_spec(a as int, b as int, d as int),
        abs_spec(r as int) <= abs_spec(a as int) * abs_spec(b as int),
{
    let abs_a: u64 = if a >= 0 {
        a as u64
    } else {
        (-a) as u64
    };
    let abs_b: u64 = if b >= 0 {
        b as u64
    } else {
        (-b) as u64
    };
    proof {
        assert(abs_a == abs_spec(a as int));
        assert(abs_b == abs_spec(b as int));
    }
    let prod: u64 = abs_a * abs_b;
    let q: u64 = prod / (d as u64);
    proof {
        lemma_div_shrinks(prod as int, d as int);
        lemma_abs_mul(a as int, b as int);
    }
    let neg = (a < 0) != (b < 0);
    if neg {
        -(q as i64)
    } else {
        q as i64
    }
}

/// `|a * b| == |a| * |b|`, and the sign of the product follows the signs of
/// the factors.
proof fn lemma_abs_mul(a: int, b: int)
    ensures
        abs_spec(a * b) == abs_spec(a) * abs_spec(b),
        ((a < 0) != (b < 0)) ==> a * b <= 0,
        ((a < 0) == (b < 0)) ==> a * b >= 0,
{
    assert(abs_spec(a * b) == abs_spec(a) * abs_spec(b) && (((a < 0) != (b < 0)) ==> a * b <= 0)
        && (((a < 0) == (b < 0)) ==> a * b >= 0)) by (nonlinear_arith);
}

} // verus!
