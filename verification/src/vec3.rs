//! Fixed-point vectors.
//!
//! [`Vec3`] is the executable three-component vector used throughout the
//! controller; its mathematical view is [`Vec3i`], whose components are
//! unbounded integers. [`Vec2`] is the two-component variant used for mouse
//! motion.

use vstd::prelude::*;

verus! {

use crate::fixed::{isqrt, lemma_isqrt_bounds, lemma_tdiv_bound, mul_div, tdiv, NEGLIGIBLE_SQ};

/// Mathematical model of a three-component vector.
pub struct Vec3i {
    pub x: int,
    pub y: int,
    pub z: int,
}

impl Vec3i {
    /// The squared magnitude, in squared sub-units.
    pub open spec fn len_sq(self) -> int {
        self.x * self.x + self.y * self.y + self.z * self.z
    }

    /// Every component lies within `bound` of zero.
    pub open spec fn in_range(self, bound: int) -> bool {
        &&& -bound <= self.x <= bound
        &&& -bound <= self.y <= bound
        &&& -bound <= self.z <= bound
    }

    /// The squared magnitude exceeds the negligibility threshold.
    pub open spec fn is_significant(self) -> bool {
        self.len_sq() > NEGLIGIBLE_SQ
    }

    /// The vector with the vertical component dropped.
    pub open spec fn horizontal(self) -> Vec3i {
        Vec3i { x: self.x, y: 0, z: self.z }
    }

    /// The vector rescaled to the given length: each component is multiplied
    /// by `target` and divided by the magnitude (the integer square root of
    /// the squared magnitude), truncating toward zero.
    pub open spec fn rescaled(self, target: int) -> Vec3i
        recommends
            self.len_sq() >= 1,
            target >= 0,
    {
        let m = isqrt(self.len_sq());
        Vec3i { x: tdiv(self.x * target, m), y: tdiv(self.y * target, m), z: tdiv(
            self.z * target,
            m,
        ) }
    }
}

/// Mathematical model of a two-component vector.
pub struct Vec2i {
    pub x: int,
    pub y: int,
}

impl Vec2i {
    /// The squared magnitude, in squared sub-units.
    pub open spec fn len_sq(self) -> int {
        self.x * self.x + self.y * self.y
    }

    /// The squared magnitude exceeds the negligibility threshold.
    pub open spec fn is_significant(self) -> bool {
        self.len_sq() > NEGLIGIBLE_SQ
    }
}

/// A three-component fixed-point vector, `UNIT` sub-units per unit.
#[derive(Clone, Copy, Debug, PartialEq, Eq, Structural)]
pub struct Vec3 {
    pub x: i64,
    pub y: i64,
    pub z: i64,
}

impl View for Vec3 {
    type V = Vec3i;

    open spec fn view(&self) -> Vec3i {
        Vec3i { x: self.x as int, y: self.y as int, z: self.z as int }
    }
}

/// A two-component fixed-point vector, `UNIT` sub-units per unit.
#[derive(Clone, Copy, Debug, PartialEq, Eq, Structural)]
pub struct Vec2 {
    pub x: i64,
    pub y: i64,
}

impl View for Vec2 {
    type V = Vec2i;

    open spec fn view(&self) -> Vec2i {
        Vec2i { x: self.x as int, y: self.y as int }
    }
}

impl Vec3 {
    /// The zero vector.
    pub fn zero() -> (r: Vec3)
        ensures
            r@.x == 0,
            r@.y == 0,
            r@.z == 0,
    {
        Vec3 { x: 0, y: 0, z: 0 }
    }

    /// A vector from its components.
    pub fn new(x: i64, y: i64, z: i64) -> (r: Vec3)
        ensures
            r@.x == x,
            r@.y == y,
            r@.z == z,
    {
        Vec3 { x, y, z }
    }

    /// Component-wise sum.
    pub fn plus(self, o: Vec3) -> (r: Vec3)
        requires
            i64::MIN <= self@.x + o@.x <= i64::MAX,
            i64::MIN <= self@.y + o@.y <= i64::MAX,
            i64::MIN <= self@.z + o@.z <= i64::MAX,
        ensures
            r@.x == self@.x + o@.x,
            r@.y == self@.y + o@.y,
            r@.z == self@.z + o@.z,
    {
        Vec3 { x: self.x + o.x, y: self.y + o.y, z: self.z + o.z }
    }

    /// Component-wise difference.
    pub fn minus(self, o: Vec3) -> (r: Vec3)
        requires
            i64::MIN <= self@.x - o@.x <= i64::MAX,
            i64::MIN <= self@.y - o@.y <= i64::MAX,
            i64::MIN <= self@.z - o@.z <= i64::MAX,
        ensures
            r@.x == self@.x - o@.x,
            r@.y == self@.y - o@.y,
            r@.z == self@.z - o@.z,
    {
        Vec3 { x: self.x - o.x, y: self.y - o.y, z: self.z - o.z }
    }

    /// The vector with the vertical component dropped.
    pub fn horizontal(self) -> (r: Vec3)
        ensures
            r@ == self@.horizontal(),
    {
        Vec3 { x: self.x, y: 0, z: self.z }
    }

    /// Whether the squared magnitude exceeds the negligibility threshold.
    pub fn is_significant(&self) -> (b: bool)
        requires
            self@.in_range(2_000_000_000_000_000_000),
        ensures
            b == self@.is_significant(),
    {
        proof {
            lemma_len_sq3_in_range(self@, 2_000_000_000_000_000_000);
        }
        let xx: i128 = (self.x as i128) * (self.x as i128);
        let yy: i128 = (self.y as i128) * (self.y as i128);
        let zz: i128 = (self.z as i128) * (self.z as i128);
        xx + yy + zz > NEGLIGIBLE_SQ as i128
    }

    /// Rescale the vector to the given length, truncating toward zero.
    /// Components of the result never exceed `target` in magnitude.
    pub fn rescaled(self, target: i64) -> (r: Vec3)
        requires
            self@.in_range(1_200_000_000),
            self@.len_sq() >= 1,
            target >= 0,
        ensures
            r@ == self@.rescaled(target as int),
            r@.in_range(target as int),
    {
        proof {
            lemma_len_sq3_in_range(self@, 1_200_000_000);
            lemma_isqrt_bounds(self@.len_sq() as nat);
        }
        let ghost m = isqrt(self@.len_sq());
        proof {
            assert(m >= 1) by {
                if m < 1 {
                    assert((m + 1) * (m + 1) <= 1) by (nonlinear_arith)
                        requires
                            0 <= m < 1;
                }
            }
            lemma_component_le_magnitude(self@);
            lemma_rescaled_component(self@.x, target as int, m);
            lemma_rescaled_component(self@.y, target as int, m);
            lemma_rescaled_component(self@.z, target as int, m);
            assert(self@.x * self@.x <= 1_440_000_000_000_000_000 && self@.y * self@.y
                <= 1_440_000_000_000_000_000 && self@.z * self@.z <= 1_440_000_000_000_000_000
                && self@.x * self@.x >= 0 && self@.y * self@.y >= 0 && self@.z * self@.z >= 0)
                by (nonlinear_arith)
                requires
                    self@.in_range(1_200_000_000);
        }
        let xx: i64 = self.x * self.x;
        let yy: i64 = self.y * self.y;
        let zz: i64 = self.z * self.z;
        let len_sq: u64 = (xx + yy + zz) as u64;
        let raw_mag: u64 = crate::fixed::isqrt_u64(len_sq);
        proof {
            assert(raw_mag < 0x8000_0000) by (nonlinear_arith)
                requires
                    raw_mag * raw_mag <= len_sq,
                    len_sq < 0x4000_0000_0000_0000;
        }
        let mag: i64 = raw_mag as i64;
        Vec3 {
            x: mul_div(self.x, target, mag),
            y: mul_div(self.y, target, mag),
            z: mul_div(self.z, target, mag),
        }
    }
}

impl Vec2 {
    /// The zero vector.
    pub fn zero() -> (r: Vec2)
        ensures
            r@.x == 0,
            r@.y == 0,
    {
        Vec2 { x: 0, y: 0 }
    }

    /// A vector from its components.
    pub fn new(x: i64, y: i64) -> (r: Vec2)
        ensures
            r@.x == x,
            r@.y == y,
    {
        Vec2 { x, y }
    }

    /// Whether the squared magnitude exceeds the negligibility threshold.
    pub fn is_significant(&self) -> (b: bool)
        requires
            -1_000_000_000_000_000_000 <= self@.x <= 1_000_000_000_000_000_000,
            -1_000_000_000_000_000_000 <= self@.y <= 1_000_000_000_000_000_000,
        ensures
            b == self@.is_significant(),
    {
        proof {
            assert(0 <= self@.x * self@.x <= 0x1000_0000_0000_0000_0000_0000_0000_0000int && 0
                <= self@.y * self@.y <= 0x1000_0000_0000_0000_0000_0000_0000_0000int)
                by (nonlinear_arith)
                requires
                    -1_000_000_000_000_000_000 <= self@.x <= 1_000_000_000_000_000_000,
                    -1_000_000_000_000_000_000 <= self@.y <= 1_000_000_000_000_000_000;
        }
        let xx: i128 = (self.x as i128) * (self.x as i128);
        let yy: i128 = (self.y as i128) * (self.y as i128);
        xx + yy > NEGLIGIBLE_SQ as i128
    }
}

/// Bounded components give a bounded squared magnitude.
pub proof fn lemma_len_sq3_in_range(v: Vec3i, bound: int)
    requires
        bound >= 0,
        v.in_range(bound),
    ensures
        0 <= v.len_sq() <= 3 * bound * bound,
        v.x * v.x <= v.len_sq(),
        v.y * v.y <= v.len_sq(),
        v.z * v.z <= v.len_sq(),
{
    assert(0 <= v.x * v.x <= bound * bound && 0 <= v.y * v.y <= bound * bound && 0 <= v.z * v.z
        <= bound * bound && 3 * bound * bound == bound * bound + bound * bound + bound * bound)
        by (nonlinear_arith)
        requires
            -bound <= v.x <= bound,
            -bound <= v.y <= bound,
            -bound <= v.z <= bound,
            bound >= 0;
}

/// Each component of a vector is bounded in magnitude by the integer square
/// root of the squared magnitude.
pub proof fn lemma_component_le_magnitude(v: Vec3i)
    ensures
        -isqrt(v.len_sq()) <= v.x <= isqrt(v.len_sq()),
        -isqrt(v.len_sq()) <= v.y <= isqrt(v.len_sq()),
        -isqrt(v.len_sq()) <= v.z <= isqrt(v.len_sq()),
{
    let n = v.len_sq();
    assert(v.x * v.x <= n && v.y * v.y <= n && v.z * v.z <= n && n >= 0) by (nonlinear_arith)
        requires
            n == v.x * v.x + v.y * v.y + v.z * v.z;
    lemma_isqrt_bounds(n as nat);
    let m = isqrt(n);
    lemma_square_bound(v.x, m, n);
    lemma_square_bound(v.y, m, n);
    lemma_square_bound(v.z, m, n);
}

/// A value whose square is at most `n` lies within `isqrt(n)` of zero.
proof fn lemma_square_bound(a: int, m: int, n: int)
    requires
        n >= 0,
        a * a <= n,
        m >= 0,
        n < (m + 1) * (m + 1),
    ensures
        -m <= a <= m,
{
    assert(-m <= a <= m) by (nonlinear_arith)
        requires
            n >= 0,
            a * a <= n,
            m >= 0,
            n < (m + 1) * (m + 1);
}

/// A component rescaled against a magnitude at least as large stays within
/// `target` of zero.
proof fn lemma_rescaled_component(a: int, target: int, m: int)
    requires
        m >= 1,
        target >= 0,
        -m <= a <= m,
    ensures
        -target <= tdiv(a * target, m) <= target,
{
    assert(-(m * target) <= a * target <= m * target) by (nonlinear_arith)
        requires
            m >= 1,
            target >= 0,
            -m <= a <= m;
    lemma_tdiv_bound(a * target, m, target);
}

} // verus!
