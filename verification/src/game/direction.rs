//! Unit vectors in fixed point, and the integer square root that makes them.

use vstd::prelude::*;

verus! {

/// The fixed-point value of 1.0 in a direction component.
pub const ONE: i32 = 1_000_000;

/// The extra precision carried through the square root while normalising.
pub const SCALE: u128 = 16_777_216;

/// `ONE * ONE`, the squared length of an exact unit vector.
pub const UNIT_SQUARED: i128 = 1_000_000_000_000;

/// How far the squared length of a direction may be from `UNIT_SQUARED`.
pub const UNIT_TOLERANCE: i128 = 4_000_001;

/// An axis of the plane, as the normal of a wall.
#[derive(Debug, Clone, Copy, PartialEq, Eq, Structural)]
pub enum Axis {
    X,
    Y,
}

/// Whether `r` is the integer square root of `n`: the largest integer whose
/// square does not exceed `n`.
pub open spec fn is_isqrt(n: int, r: int) -> bool {
    0 <= r && r * r <= n < (r + 1) * (r + 1)
}

/// The integer square root of `n`, for `n >= 0`.
pub open spec fn isqrt_spec(n: int) -> int {
    choose|r: int| is_isqrt(n, r)
}

/// Whether `(x, y)` has length 1.0 in fixed point, within `UNIT_TOLERANCE` on the squared length.
pub open spec fn is_unit(x: int, y: int) -> bool {
    UNIT_SQUARED - UNIT_TOLERANCE <= x * x + y * y <= UNIT_SQUARED + UNIT_TOLERANCE
}

/// The length of `(a, b)` scaled by `SCALE`, rounded down.
pub open spec fn scaled_length(a: int, b: int) -> int {
    isqrt_spec(SCALE * SCALE * (a * a + b * b))
}

/// One component of a vector divided by its length, in fixed point, rounded towards zero.
pub open spec fn unit_component(c: int, len: int) -> int {
    if c < 0 {
        -((-c * ONE * SCALE) / len)
    } else {
        (c * ONE * SCALE) / len
    }
}

/// The vector `(a, b)` rescaled to length 1.0 in fixed point. Meaningful unless both are zero.
pub open spec fn normalize_spec(a: int, b: int) -> (int, int) {
    let len = scaled_length(a, b);
    (unit_component(a, len), unit_component(b, len))
}

proof fn lemma_square_le(a: int, b: int)
    by (nonlinear_arith)
    requires
        0 <= a <= b,
    ensures
        a * a <= b * b,
{
}

proof fn lemma_square_lt(a: int, b: int)
    by (nonlinear_arith)
    requires
        0 <= a < b,
    ensures
        a * a < b * b,
{
}

/// A number has at most one integer square root.
pub proof fn lemma_isqrt_unique(n: int, r1: int, r2: int)
    requires
        is_isqrt(n, r1),
        is_isqrt(n, r2),
    ensures
        r1 == r2,
{
    if r1 < r2 {
        lemma_square_le(r1 + 1, r2);
    } else if r2 < r1 {
        lemma_square_le(r2 + 1, r1);
    }
}

/// Any root found for `n` is the one `isqrt_spec` names.
pub proof fn lemma_isqrt_is(n: int, r: int)
    requires
        is_isqrt(n, r),
    ensures
        isqrt_spec(n) == r,
{
    lemma_isqrt_unique(n, r, isqrt_spec(n));
}

/// Every number from zero up has an integer square root.
pub proof fn lemma_isqrt_exists(n: int)
    requires
        n >= 0,
    ensures
        is_isqrt(n, isqrt_spec(n)),
    decreases n,
{
    if n == 0 {
        assert(is_isqrt(0, 0));
    } else {
        lemma_isqrt_exists(n - 1);
        let r = isqrt_spec(n - 1);
        if (r + 1) * (r + 1) <= n {
            lemma_square_lt(r + 1, r + 2);
            assert(is_isqrt(n, r + 1));
        } else {
            assert(is_isqrt(n, r));
        }
    }
}

/// The integer square root of `n`, by bisection.
pub fn isqrt(n: u128) -> (r: u64)
    ensures
        is_isqrt(n as int, r as int),
        r == isqrt_spec(n as int),
{
    let mut lo: u128 = 0;
    let mut hi: u128 = 0x1_0000_0000_0000_0000;
    assert(n < hi * hi) by (nonlinear_arith)
        requires
            n <= 0xffff_ffff_ffff_ffff_ffff_ffff_ffff_ffff,
            hi == 0x1_0000_0000_0000_0000,
    ;
    while hi - lo > 1
        invariant
            lo < hi <= 0x1_0000_0000_0000_0000,
            lo * lo <= n,
            n < hi * hi,
        decreases hi - lo,
    {
        let mid = lo + (hi - lo) / 2;
        assert(mid * mid <= 0xffff_ffff_ffff_ffff * 0xffff_ffff_ffff_ffff) by (nonlinear_arith)
            requires
                0 <= mid <= 0xffff_ffff_ffff_ffff,
        ;
        if mid * mid <= n {
            lo = mid;
        } else {
            hi = mid;
        }
    }
    proof {
        lemma_isqrt_is(n as int, lo as int);
    }
    lo as u64
}

/// The heart of normalisation: dividing both components of a non-zero vector
/// by its scaled length leaves a vector whose squared length is within
/// `4 * one + 1` of `one * one`, with neither component above `one`.
proof fn lemma_normalized_is_unit(a: int, b: int, one: int, scale: int, len: int, x: int, y: int)
    requires
        0 <= a,
        0 <= b,
        0 < a + b,
        0 < one <= scale,
        is_isqrt(scale * scale * (a * a + b * b), len),
        len > 0 ==> x == (a * one * scale) / len,
        len > 0 ==> y == (b * one * scale) / len,
    ensures
        len >= scale,
        0 <= x <= one,
        0 <= y <= one,
        one * one - (4 * one + 1) <= x * x + y * y <= one * one + (4 * one + 1),
{
    let n = scale * scale * (a * a + b * b);
    let qa = a * one * scale;
    let qb = b * one * scale;
    // The length is at least the scale.
    assert(n >= scale * scale) by (nonlinear_arith)
        requires
            n == scale * scale * (a * a + b * b),
            0 <= a,
            0 <= b,
            0 < a + b,
    ;
    if len < scale {
        lemma_square_le(len + 1, scale);
    }
    assert(len >= scale);
    // Division brackets each scaled component.
    vstd::arithmetic::div_mod::lemma_fundamental_div_mod(qa, len);
    vstd::arithmetic::div_mod::lemma_mod_bound(qa, len);
    vstd::arithmetic::div_mod::lemma_fundamental_div_mod(qb, len);
    vstd::arithmetic::div_mod::lemma_mod_bound(qb, len);
    assert(qa >= 0 && qb >= 0) by (nonlinear_arith)
        requires
            qa == a * one * scale,
            qb == b * one * scale,
            0 <= a,
            0 <= b,
            0 < one,
            0 < scale,
    ;
    assert(x * len <= qa < (x + 1) * len && y * len <= qb < (y + 1) * len) by (nonlinear_arith)
        requires
            qa == len * x + (qa % len),
            qb == len * y + (qb % len),
            0 <= qa % len < len,
            0 <= qb % len < len,
    ;
    assert(0 <= x && 0 <= y) by (nonlinear_arith)
        requires
            0 <= qa < (x + 1) * len,
            0 <= qb < (y + 1) * len,
            len > 0,
    ;
    // Each component times the scale is at most the length.
    lemma_component_below_length(a, b, scale, len);
    lemma_component_below_length(b, a, scale, len);
    assert(x <= one && y <= one) by (nonlinear_arith)
        requires
            x * len <= a * one * scale,
            y * len <= b * one * scale,
            a * scale <= len,
            b * scale <= len,
            0 < one,
            0 < len,
    ;
    let s = x * x + y * y;
    // Upper bound.
    lemma_square_le(x * len, qa);
    lemma_square_le(y * len, qb);
    lemma_square_of_product(x, len);
    lemma_square_of_product(y, len);
    lemma_square_of_scaled(a, one, scale);
    lemma_square_of_scaled(b, one, scale);
    lemma_sum_of_scaled_squares(a, b, one, scale);
    assert(s * (len * len) == (x * x) * (len * len) + (y * y) * (len * len))
        by (nonlinear_arith)
        requires
            s == x * x + y * y,
    ;
    assert(s * (len * len) <= one * one * n);
    assert(one * one * n < one * one * ((len + 1) * (len + 1))) by (nonlinear_arith)
        requires
            n < (len + 1) * (len + 1),
            0 < one,
    ;
    assert(s <= one * one + (4 * one + 1)) by (nonlinear_arith)
        requires
            s * (len * len) < one * one * ((len + 1) * (len + 1)),
            len >= scale,
            scale >= one,
            one > 0,
    ;
    // Lower bound.
    lemma_square_lt(qa, (x + 1) * len);
    lemma_square_lt(qb, (y + 1) * len);
    lemma_square_of_product(x + 1, len);
    lemma_square_of_product(y + 1, len);
    let t = (x + 1) * (x + 1) + (y + 1) * (y + 1);
    assert(t * (len * len) == ((x + 1) * (x + 1)) * (len * len) + ((y + 1) * (y + 1)) * (len
        * len)) by (nonlinear_arith)
        requires
            t == (x + 1) * (x + 1) + (y + 1) * (y + 1),
    ;
    assert(t * (len * len) > one * one * n);
    assert(one * one * n >= one * one * (len * len)) by (nonlinear_arith)
        requires
            len * len <= n,
            0 < one,
    ;
    assert(t > one * one) by (nonlinear_arith)
        requires
            t * (len * len) > one * one * (len * len),
            len > 0,
    ;
    assert(s >= one * one - (4 * one + 1)) by (nonlinear_arith)
        requires
            t == (x + 1) * (x + 1) + (y + 1) * (y + 1),
            t > one * one,
            s == x * x + y * y,
            0 <= x <= one,
            0 <= y <= one,
    ;
}

proof fn lemma_square_of_product(x: int, len: int)
    by (nonlinear_arith)
    ensures
        (x * len) * (x * len) == (x * x) * (len * len),
{
}

proof fn lemma_square_of_scaled(a: int, one: int, scale: int)
    by (nonlinear_arith)
    ensures
        (a * one * scale) * (a * one * scale) == (one * one) * ((scale * scale) * (a * a)),
{
}

proof fn lemma_sum_of_scaled_squares(a: int, b: int, one: int, scale: int)
    by (nonlinear_arith)
    ensures
        one * one * (scale * scale * (a * a + b * b)) == (one * one) * ((scale * scale) * (a * a))
            + (one * one) * ((scale * scale) * (b * b)),
{
}

proof fn lemma_component_below_length(a: int, b: int, scale: int, len: int)
    requires
        0 <= a,
        0 <= b,
        0 < scale,
        is_isqrt(scale * scale * (a * a + b * b), len),
    ensures
        a * scale <= len,
{
    let n = scale * scale * (a * a + b * b);
    assert((a * scale) * (a * scale) <= n) by (nonlinear_arith)
        requires
            n == scale * scale * (a * a + b * b),
            0 <= a,
            0 <= b,
            0 < scale,
    ;
    assert(a * scale >= 0) by (nonlinear_arith)
        requires
            0 <= a,
            0 < scale,
    ;
    if a * scale > len {
        lemma_square_le(len + 1, a * scale);
    }
}

/// A direction of travel: a vector of length 1.0 in fixed point.
#[derive(Debug, Clone, Copy, PartialEq, Eq, Structural)]
pub struct Direction {
    x: i32,
    y: i32,
}

impl Direction {
    /// The horizontal component, in units of `1 / ONE`.
    pub closed spec fn dx(self) -> int {
        self.x as int
    }

    /// The vertical component, in units of `1 / ONE`.
    pub closed spec fn dy(self) -> int {
        self.y as int
    }

    /// The direction with components `x` and `y`, which must be those of some direction.
    pub closed spec fn from_components(x: int, y: int) -> Direction {
        Direction { x: x as i32, y: y as i32 }
    }

    /// `from_components` keeps components that fit a direction.
    pub proof fn lemma_components_kept(x: int, y: int)
        requires
            i32::MIN <= x <= i32::MAX,
            i32::MIN <= y <= i32::MAX,
        ensures
            Direction::from_components(x, y).dx() == x,
            Direction::from_components(x, y).dy() == y,
    {
    }

    /// A direction is the one its components name.
    pub proof fn lemma_from_own_components(self)
        ensures
            self == Direction::from_components(self.dx(), self.dy()),
    {
    }

    /// A direction is well formed when it has unit length. That holds of
    /// every direction a program holds; a direction that is only spoken of
    /// in a proof has to be known to be well formed.
    #[verifier::type_invariant]
    pub open spec fn wf(self) -> bool {
        is_unit(self.dx(), self.dy())
    }

    /// The components of the direction mirrored at a wall whose normal is
    /// `axis`: the one along the normal changes sign, the other one stays.
    pub open spec fn reflected(self, axis: Axis) -> (int, int) {
        match axis {
            Axis::X => (-self.dx(), self.dy()),
            Axis::Y => (self.dx(), -self.dy()),
        }
    }

    /// The direction mirrored at a wall whose normal is `axis`.
    /// Its components are `reflected(axis)` whenever `self` is well formed.
    pub closed spec fn reflect_spec(self, axis: Axis) -> Direction {
        match axis {
            Axis::X => Direction { x: (-self.x) as i32, y: self.y },
            Axis::Y => Direction { x: self.x, y: (-self.y) as i32 },
        }
    }

    /// Accepts `(x, y)` as a direction if it already has unit length.
    pub fn new(x: i32, y: i32) -> (d: Option<Direction>)
        ensures
            d is Some <==> is_unit(x as int, y as int),
            d matches Some(dir) ==> {
                &&& dir.dx() == x
                &&& dir.dy() == y
                &&& dir == Direction::from_components(x as int, y as int)
                &&& dir.wf()
            },
    {
        assert(0 <= x * x <= 0x4000_0000_0000_0000 && 0 <= y * y <= 0x4000_0000_0000_0000)
            by (nonlinear_arith)
            requires
                -0x8000_0000 <= x <= 0x7fff_ffff,
                -0x8000_0000 <= y <= 0x7fff_ffff,
        ;
        let xx: i128 = (x as i128) * (x as i128);
        let yy: i128 = (y as i128) * (y as i128);
        let s: i128 = xx + yy;
        if UNIT_SQUARED - UNIT_TOLERANCE <= s && s <= UNIT_SQUARED + UNIT_TOLERANCE {
            Some(Direction { x, y })
        } else {
            None
        }
    }

    /// The direction that points the way of `(a, b)`, or nothing for the zero vector.
    pub fn from_vector(a: i32, b: i32) -> (d: Option<Direction>)
        ensures
            d is None <==> (a == 0 && b == 0),
            d matches Some(dir) ==> {
                &&& dir.dx() == normalize_spec(a as int, b as int).0
                &&& dir.dy() == normalize_spec(a as int, b as int).1
                &&& dir == Direction::from_components(
                    normalize_spec(a as int, b as int).0,
                    normalize_spec(a as int, b as int).1,
                )
                &&& dir.wf()
            },
    {
        if a == 0 && b == 0 {
            return None;
        }
        let a_abs: u128 = if a < 0 {
            (-(a as i64)) as u128
        } else {
            a as u128
        };
        let b_abs: u128 = if b < 0 {
            (-(b as i64)) as u128
        } else {
            b as u128
        };
        assert(a_abs * a_abs + b_abs * b_abs <= 0x8000_0000_0000_0000) by (nonlinear_arith)
            requires
                0 <= a_abs <= 0x8000_0000,
                0 <= b_abs <= 0x8000_0000,
        ;
        let m: u128 = a_abs * a_abs + b_abs * b_abs;
        assert(SCALE * SCALE * m <= 0x1_0000_0000_0000 * 0x8000_0000_0000_0000) by (nonlinear_arith)
            requires
                0 <= m <= 0x8000_0000_0000_0000,
                SCALE == 0x100_0000,
        ;
        let n: u128 = SCALE * SCALE * m;
        let len: u128 = isqrt(n) as u128;
        assert(a_abs * ONE * SCALE <= 0x8000_0000 * 1_000_000 * 0x100_0000 && b_abs * ONE * SCALE
            <= 0x8000_0000 * 1_000_000 * 0x100_0000) by (nonlinear_arith)
            requires
                0 <= a_abs <= 0x8000_0000,
                0 <= b_abs <= 0x8000_0000,
                ONE == 1_000_000,
                SCALE == 0x100_0000,
        ;
        proof {
            assert(SCALE * SCALE * (a_abs * a_abs + b_abs * b_abs) == n);
            lemma_normalized_is_unit(
                a_abs as int,
                b_abs as int,
                ONE as int,
                SCALE as int,
                len as int,
                (a_abs * ONE * SCALE) / (len as int),
                (b_abs * ONE * SCALE) / (len as int),
            );
        }
        let x_abs: u128 = (a_abs * (ONE as u128) * SCALE) / len;
        let y_abs: u128 = (b_abs * (ONE as u128) * SCALE) / len;
        let x: i32 = if a < 0 {
            -(x_abs as i32)
        } else {
            x_abs as i32
        };
        let y: i32 = if b < 0 {
            -(y_abs as i32)
        } else {
            y_abs as i32
        };
        proof {
            let ai = a as int;
            let bi = b as int;
            assert(ai * ai == a_abs * a_abs && bi * bi == b_abs * b_abs) by (nonlinear_arith)
                requires
                    a_abs == ai || a_abs == -ai,
                    b_abs == bi || b_abs == -bi,
            ;
            assert(scaled_length(ai, bi) == len);
            assert(x * x == x_abs * x_abs && y * y == y_abs * y_abs) by (nonlinear_arith)
                requires
                    x == x_abs || x == -x_abs,
                    y == y_abs || y == -y_abs,
            ;
            assert(unit_component(ai, len as int) == x);
            assert(unit_component(bi, len as int) == y);
        }
        Some(Direction { x, y })
    }

    /// The direction along the positive horizontal axis.
    pub fn unit_x() -> (d: Direction)
        ensures
            d.dx() == ONE,
            d.dy() == 0,
            d == Direction::from_components(ONE as int, 0),
            d.wf(),
    {
        Direction { x: ONE, y: 0 }
    }

    pub fn x(&self) -> (x: i32)
        ensures
            x == self.dx(),
    {
        self.x
    }

    pub fn y(&self) -> (y: i32)
        ensures
            y == self.dy(),
    {
        self.y
    }

    /// Mirrors the direction at a wall whose normal is `axis`.
    pub fn reflect(self, axis: Axis) -> (d: Direction)
        ensures
            d == self.reflect_spec(axis),
            (d.dx(), d.dy()) == self.reflected(axis),
            d.wf(),
    {
        proof {
            use_type_invariant(&self);
            lemma_unit_component_bound(self.x as int, self.y as int);
            assert((-self.x) * (-self.x) == self.x * self.x && (-self.y) * (-self.y) == self.y
                * self.y) by (nonlinear_arith);
        }
        match axis {
            Axis::X => Direction { x: -self.x, y: self.y },
            Axis::Y => Direction { x: self.x, y: -self.y },
        }
    }
}

/// Normalising any vector but the zero vector gives a unit vector whose
/// components do not exceed `ONE` in size.
pub proof fn lemma_normalize_is_unit(a: int, b: int)
    requires
        a != 0 || b != 0,
    ensures
        is_unit(normalize_spec(a, b).0, normalize_spec(a, b).1),
        -ONE <= normalize_spec(a, b).0 <= ONE,
        -ONE <= normalize_spec(a, b).1 <= ONE,
{
    let a_abs = if a < 0 {
        -a
    } else {
        a
    };
    let b_abs = if b < 0 {
        -b
    } else {
        b
    };
    let n = SCALE * SCALE * (a * a + b * b);
    assert(a * a == a_abs * a_abs && b * b == b_abs * b_abs && n >= 0) by (nonlinear_arith)
        requires
            a_abs == a || a_abs == -a,
            b_abs == b || b_abs == -b,
            n == SCALE * SCALE * (a * a + b * b),
    ;
    lemma_isqrt_exists(n);
    let len = scaled_length(a, b);
    let x = (a_abs * ONE * SCALE) / len;
    let y = (b_abs * ONE * SCALE) / len;
    lemma_normalized_is_unit(a_abs, b_abs, ONE as int, SCALE as int, len, x, y);
    assert(unit_component(a, len) == x || unit_component(a, len) == -x);
    assert(unit_component(b, len) == y || unit_component(b, len) == -y);
    let ux = unit_component(a, len);
    let uy = unit_component(b, len);
    assert(ux * ux == x * x && uy * uy == y * y) by (nonlinear_arith)
        requires
            ux == x || ux == -x,
            uy == y || uy == -y,
    ;
}

/// The components of a unit vector cannot be far above `ONE` in size.
pub proof fn lemma_unit_component_bound(x: int, y: int)
    requires
        is_unit(x, y),
    ensures
        -2 * ONE < x < 2 * ONE,
        -2 * ONE < y < 2 * ONE,
{
    assert(x * x >= 0 && y * y >= 0) by (nonlinear_arith);
    if x >= 2 * ONE || x <= -2 * ONE {
        assert(x * x >= 4_000_000_000_000) by (nonlinear_arith)
            requires
                x >= 2_000_000 || x <= -2_000_000,
        ;
    }
    if y >= 2 * ONE || y <= -2 * ONE {
        assert(y * y >= 4_000_000_000_000) by (nonlinear_arith)
            requires
                y >= 2_000_000 || y <= -2_000_000,
        ;
    }
}

/// Mirroring keeps unit length: a direction that was well formed before it
/// bounced is well formed after, with exactly the mirrored components.
pub proof fn lemma_reflection_keeps_unit_length(d: Direction, axis: Axis)
    requires
        d.wf(),
    ensures
        d.reflect_spec(axis).wf(),
        (d.reflect_spec(axis).dx(), d.reflect_spec(axis).dy()) == d.reflected(axis),
{
    lemma_unit_component_bound(d.dx(), d.dy());
    assert((-d.dx()) * (-d.dx()) == d.dx() * d.dx() && (-d.dy()) * (-d.dy()) == d.dy() * d.dy())
        by (nonlinear_arith);
}

/// Bouncing off a vertical wall flips the horizontal component and leaves the
/// vertical one alone; off a horizontal wall, the other way round.
pub proof fn lemma_reflection_flips_one_component(d: Direction)
    ensures
        d.reflected(Axis::X) == (-d.dx(), d.dy()),
        d.reflected(Axis::Y) == (d.dx(), -d.dy()),
{
}

} // verus!
