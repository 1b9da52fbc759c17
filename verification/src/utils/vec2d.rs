use vstd::prelude::*;
use vstd::std_specs::cmp::{PartialEqSpec, PartialEqSpecImpl};
use vstd::std_specs::convert::FromSpecImpl;
use vstd::std_specs::ops::{AddSpec, AddSpecImpl, MulSpecImpl, NegSpec, NegSpecImpl, SubSpec, SubSpecImpl};
use std::ops::{Add, Mul, Neg, Sub};
use crate::utils::conventions::{HALF_UNIT, UNIT, VEC_LIMIT};
use crate::utils::misc_math::{
    abs, along, floor_sqrt, is_floor_sqrt, lemma_floor_sqrt_exists, trunc_div, Along, FloorDiv, FloorDivWide,
    FloorSqrt,
};

verus! {

/// What a vector component must offer: it is copied freely and can be
/// added, subtracted and negated.
pub trait ValidVecElement: Copy + Add<Output = Self> + Sub<Output = Self> + Neg<Output = Self> {
}

impl<T: Copy + Add<Output = T> + Sub<Output = T> + Neg<Output = T>> ValidVecElement for T {
}

/// A pair of scalars, used both as a point and as a direction.
#[derive(Copy, Clone, Debug, Default)]
pub struct Vec2D<T: ValidVecElement> {
    pub x: T,
    pub y: T,
}

/// A vector of fixed-point numbers (`UNIT` subunits stand for `1.0`).
pub type Vec2 = Vec2D<i64>;

/// A vector of whole numbers.
pub type iVec2 = Vec2D<i32>;

/// A world position, in subunits.
pub type Point2 = Vec2;

/// A tile-grid coordinate.
pub type iPoint2 = iVec2;

/// A screen position.
pub type Pixel = iVec2;

impl<T: ValidVecElement> Vec2D<T> {
    pub open spec fn spec_new(e1: T, e2: T) -> Self {
        Vec2D { x: e1, y: e2 }
    }

    pub open spec fn spec_x(self) -> T {
        self.x
    }

    pub open spec fn spec_y(self) -> T {
        self.y
    }

    #[verifier::when_used_as_spec(spec_new)]
    pub fn New(e1: T, e2: T) -> (v: Self)
        ensures
            v == (Vec2D { x: e1, y: e2 }),
    {
        Vec2D { x: e1, y: e2 }
    }

    #[verifier::when_used_as_spec(spec_x)]
    pub fn x(self) -> (r: T)
        ensures
            r == self.x,
    {
        self.x
    }

    pub fn SetX(&mut self, newX: T)
        ensures
            *final(self) == (Vec2D { x: newX, y: old(self).y }),
    {
        self.x = newX;
    }

    #[verifier::when_used_as_spec(spec_y)]
    pub fn y(self) -> (r: T)
        ensures
            r == self.y,
    {
        self.y
    }

    pub fn SetY(&mut self, newY: T)
        ensures
            *final(self) == (Vec2D { x: old(self).x, y: newY }),
    {
        self.y = newY;
    }
}

impl<T: ValidVecElement> Add for Vec2D<T> {
    type Output = Self;

    fn add(self, rhs: Self) -> (r: Self) {
        Vec2D::New(self.x + rhs.x, self.y + rhs.y)
    }
}

impl<T: ValidVecElement> AddSpecImpl for Vec2D<T> {
    open spec fn obeys_add_spec() -> bool {
        <T as AddSpec>::obeys_add_spec()
    }

    open spec fn add_req(self, rhs: Self) -> bool {
        self.x.add_req(rhs.x) && self.y.add_req(rhs.y)
    }

    open spec fn add_spec(self, rhs: Self) -> Self {
        Vec2D { x: self.x.add_spec(rhs.x), y: self.y.add_spec(rhs.y) }
    }
}

impl<T: ValidVecElement> Sub for Vec2D<T> {
    type Output = Self;

    fn sub(self, rhs: Self) -> (r: Self) {
        Vec2D::New(self.x - rhs.x, self.y - rhs.y)
    }
}

impl<T: ValidVecElement> SubSpecImpl for Vec2D<T> {
    open spec fn obeys_sub_spec() -> bool {
        <T as SubSpec>::obeys_sub_spec()
    }

    open spec fn sub_req(self, rhs: Self) -> bool {
        self.x.sub_req(rhs.x) && self.y.sub_req(rhs.y)
    }

    open spec fn sub_spec(self, rhs: Self) -> Self {
        Vec2D { x: self.x.sub_spec(rhs.x), y: self.y.sub_spec(rhs.y) }
    }
}

impl<T: ValidVecElement> Neg for Vec2D<T> {
    type Output = Self;

    fn neg(self) -> (r: Self) {
        Vec2D::New(self.x.neg(), self.y.neg())
    }
}

impl<T: ValidVecElement> NegSpecImpl for Vec2D<T> {
    open spec fn obeys_neg_spec() -> bool {
        <T as NegSpec>::obeys_neg_spec()
    }

    open spec fn neg_req(self) -> bool {
        self.x.neg_req() && self.y.neg_req()
    }

    open spec fn neg_spec(self) -> Self {
        Vec2D { x: self.x.neg_spec(), y: self.y.neg_spec() }
    }
}

impl<T: ValidVecElement + PartialEq> PartialEq for Vec2D<T> {
    fn eq(&self, other: &Self) -> (r: bool) {
        self.x == other.x && self.y == other.y
    }
}

impl<T: ValidVecElement + PartialEq> PartialEqSpecImpl for Vec2D<T> {
    open spec fn obeys_eq_spec() -> bool {
        <T as PartialEqSpec>::obeys_eq_spec()
    }

    open spec fn eq_spec(&self, other: &Self) -> bool {
        self.x.eq_spec(&other.x) && self.y.eq_spec(&other.y)
    }
}

/// The whole-tile part of a coordinate, rounded toward zero and held within
/// the range of a tile index.
pub open spec fn tile_of(c: int) -> int {
    let t = trunc_div(c, UNIT as int);
    if t < i32::MIN {
        i32::MIN as int
    } else if t > i32::MAX {
        i32::MAX as int
    } else {
        t
    }
}

/// The tile index of a coordinate.
pub fn TileOf(c: i64) -> (t: i32)
    ensures
        t == tile_of(c as int),
{
    let q: i64 = c / UNIT;
    if q < -2147483648 {
        i32::MIN
    } else if q > 2147483647 {
        i32::MAX
    } else {
        q as i32
    }
}

/// The tile that holds a world position.
pub open spec fn tile_of_point(p: Vec2D<i64>) -> Vec2D<i32> {
    Vec2D { x: tile_of(p.x as int) as i32, y: tile_of(p.y as int) as i32 }
}

/// The world position of the middle of the tile in column `x` and row `y`.
pub open spec fn tile_center(x: int, y: int) -> Vec2D<i64> {
    Vec2D { x: (x * UNIT + HALF_UNIT) as i64, y: (y * UNIT + HALF_UNIT) as i64 }
}

impl From<Vec2D<i64>> for Vec2D<i32> {
    /// The tile that holds a world position.
    fn from(value: Vec2D<i64>) -> (r: Self) {
        Vec2D::New(TileOf(value.x), TileOf(value.y))
    }
}

impl FromSpecImpl<Vec2D<i64>> for Vec2D<i32> {
    open spec fn obeys_from_spec() -> bool {
        true
    }

    open spec fn from_spec(value: Vec2D<i64>) -> Self {
        tile_of_point(value)
    }
}

impl From<Vec2D<i32>> for Vec2D<i64> {
    /// The world position of a tile's corner of least coordinates.
    fn from(value: Vec2D<i32>) -> (r: Self) {
        let x: i64 = value.x as i64;
        let y: i64 = value.y as i64;
        Vec2D::New(x * UNIT, y * UNIT)
    }
}

impl FromSpecImpl<Vec2D<i32>> for Vec2D<i64> {
    open spec fn obeys_from_spec() -> bool {
        true
    }

    open spec fn from_spec(value: Vec2D<i32>) -> Self {
        Vec2D { x: (value.x * UNIT) as i64, y: (value.y * UNIT) as i64 }
    }
}

impl Vec2D<i64> {
    /// Both components are at most `limit` in magnitude.
    pub open spec fn within(self, limit: int) -> bool {
        abs(self.x as int) <= limit && abs(self.y as int) <= limit
    }

    /// The exact sum of the squares of the components, in squared subunits.
    pub open spec fn norm_squared(self) -> int {
        self.x * self.x + self.y * self.y
    }

    /// The squared length as a fixed-point number, rounded down.
    pub fn LengthSquared(&self) -> (r: i64)
        requires
            self.within(VEC_LIMIT as int),
        ensures
            r == self.norm_squared() / (UNIT as int),
    {
        let x: i128 = self.x as i128;
        let y: i128 = self.y as i128;
        proof {
            lemma_square_bound(self.x as int, VEC_LIMIT as int);
            lemma_square_bound(self.y as int, VEC_LIMIT as int);
        }
        let s: i128 = x * x + y * y;
        (s / (UNIT as i128)) as i64
    }

    /// The length in subunits, rounded down.
    pub fn Length(&self) -> (r: i64)
        requires
            self.within(VEC_LIMIT as int),
        ensures
            r == floor_sqrt(self.norm_squared()),
            is_floor_sqrt(r as int, self.norm_squared()),
    {
        let x: i128 = self.x as i128;
        let y: i128 = self.y as i128;
        proof {
            lemma_square_bound(self.x as int, VEC_LIMIT as int);
            lemma_square_bound(self.y as int, VEC_LIMIT as int);
        }
        let s: i128 = x * x + y * y;
        let r: u64 = FloorSqrt(s as u64);
        r as i64
    }

    /// The vector turned counter-clockwise by the angle whose cosine and sine
    /// are the fixed-point numbers `cos` and `sin`; each component is rounded
    /// down.
    pub open spec fn rotated(self, cos: int, sin: int) -> Self {
        Vec2D {
            x: ((self.x * cos - self.y * sin) / (UNIT as int)) as i64,
            y: ((self.x * sin + self.y * cos) / (UNIT as int)) as i64,
        }
    }

    pub fn Rotate(&self, cos: i64, sin: i64) -> (r: Self)
        requires
            self.within(VEC_LIMIT as int),
            abs(cos as int) <= UNIT,
            abs(sin as int) <= UNIT,
        ensures
            r == self.rotated(cos as int, sin as int),
            r.within(2 * VEC_LIMIT),
    {
        proof {
            lemma_product_bound(self.x as int, VEC_LIMIT as int, cos as int, UNIT as int);
            lemma_product_bound(self.y as int, VEC_LIMIT as int, sin as int, UNIT as int);
            lemma_product_bound(self.x as int, VEC_LIMIT as int, sin as int, UNIT as int);
            lemma_product_bound(self.y as int, VEC_LIMIT as int, cos as int, UNIT as int);
        }
        let a: i64 = self.x * cos - self.y * sin;
        let b: i64 = self.x * sin + self.y * cos;
        Vec2D::New(FloorDiv(a, UNIT), FloorDiv(b, UNIT))
    }

    /// The vector of length `UNIT` that points the same way, each component
    /// rounded toward zero.
    pub open spec fn unit(self) -> Self {
        let n = self.norm_squared();
        Vec2D {
            x: along(unit_magnitude(self.x as int, n), self.x as int) as i64,
            y: along(unit_magnitude(self.y as int, n), self.y as int) as i64,
        }
    }

    /// The vector of length `UNIT` that points the same way. It is at most
    /// `UNIT` long, and less than one subunit on each component is missing
    /// to that length: see `lemma_unit_length`.
    pub fn UnitVector(&self) -> (r: Self)
        requires
            self.within(VEC_LIMIT as int),
            self.x != 0 || self.y != 0,
        ensures
            r == self.unit(),
            r.within(UNIT as int),
            r.x != 0 || r.y != 0,
    {
        let x: i128 = self.x as i128;
        let y: i128 = self.y as i128;
        proof {
            lemma_square_bound(self.x as int, VEC_LIMIT as int);
            lemma_square_bound(self.y as int, VEC_LIMIT as int);
            lemma_unit_length(*self);
            assert(0 < x * x + y * y) by (nonlinear_arith)
                requires
                    x != 0 || y != 0,
            ;
        }
        let n: i128 = x * x + y * y;
        let mx: i64 = UnitMagnitude(self.x, n);
        let my: i64 = UnitMagnitude(self.y, n);
        Vec2D::New(Along(mx, self.x), Along(my, self.y))
    }
}

/// The magnitude of a component `c` of the unit vector of a vector whose
/// squared length is `n`: the square root of `c * c * UNIT * UNIT / n`,
/// which is `|c| * UNIT` over the length of the vector, rounded down.
pub open spec fn unit_magnitude(c: int, n: int) -> int {
    floor_sqrt((c * c * 4294967296) / n)
}

/// The magnitude of a component of a unit vector.
pub fn UnitMagnitude(c: i64, n: i128) -> (m: i64)
    requires
        abs(c as int) <= VEC_LIMIT,
        0 < n,
        c * c <= n,
    ensures
        m == unit_magnitude(c as int, n as int),
        0 <= m <= UNIT,
{
    let wide: i128 = c as i128;
    proof {
        lemma_square_bound(c as int, VEC_LIMIT as int);
        lemma_unit_magnitude(c as int, n as int);
    }
    let square: i128 = wide * wide;
    let scaled: i128 = square * 4294967296;
    let quotient: i128 = scaled / n;
    let m: u64 = FloorSqrt(quotient as u64);
    m as i64
}

/// The magnitude of a component of a unit vector is at most `UNIT`. Its
/// square, taken `n` times, is at most the square of `c * UNIT`, and the
/// square of the next magnitude, taken `n` times, is more.
pub proof fn lemma_unit_magnitude(c: int, n: int)
    requires
        0 < n,
        c * c <= n,
    ensures
        0 <= (c * c * 4294967296) / n <= 4294967296,
        0 <= unit_magnitude(c, n) <= UNIT,
        is_floor_sqrt(unit_magnitude(c, n), (c * c * 4294967296) / n),
        unit_magnitude(c, n) * unit_magnitude(c, n) * n <= c * c * 4294967296,
        (unit_magnitude(c, n) + 1) * (unit_magnitude(c, n) + 1) * n > c * c * 4294967296,
{
    let a = c * c * 4294967296;
    let q = a / n;
    assert(0 <= a <= 4294967296 * n) by (nonlinear_arith)
        requires
            a == c * c * 4294967296,
            c * c <= n,
    ;
    vstd::arithmetic::div_mod::lemma_fundamental_div_mod(a, n);
    assert(0 <= q <= 4294967296) by (nonlinear_arith)
        requires
            a == n * q + a % n,
            0 <= a % n < n,
            0 <= a <= 4294967296 * n,
            0 < n,
    ;
    lemma_floor_sqrt_exists(q);
    let m = unit_magnitude(c, n);
    assert(m <= 65536) by (nonlinear_arith)
        requires
            0 <= m,
            m * m <= q,
            q <= 4294967296,
    ;
    assert(m * m * n <= a) by (nonlinear_arith)
        requires
            m * m <= q,
            a == n * q + a % n,
            0 <= a % n,
            0 < n,
    ;
    assert((m + 1) * (m + 1) * n > a) by (nonlinear_arith)
        requires
            q < (m + 1) * (m + 1),
            a == n * q + a % n,
            a % n < n,
            0 < n,
    ;
}

/// The unit vector of a vector that is not zero is at most `UNIT` long, and
/// it is not short by much: with one subunit more on each component it
/// would be longer than `UNIT`. So it is not the zero vector.
pub proof fn lemma_unit_length(v: Vec2D<i64>)
    requires
        v.x != 0 || v.y != 0,
    ensures
        v.unit().within(UNIT as int),
        v.unit().norm_squared() <= UNIT * UNIT,
        (abs(v.unit().x as int) + 1) * (abs(v.unit().x as int) + 1) + (abs(v.unit().y as int) + 1) * (abs(
            v.unit().y as int,
        ) + 1) > UNIT * UNIT,
        v.unit().x != 0 || v.unit().y != 0,
        v.x > 0 ==> v.unit().x >= 0,
        v.x < 0 ==> v.unit().x <= 0,
        v.x == 0 ==> v.unit().x == 0,
        v.y > 0 ==> v.unit().y >= 0,
        v.y < 0 ==> v.unit().y <= 0,
        v.y == 0 ==> v.unit().y == 0,
{
    let x = v.x as int;
    let y = v.y as int;
    let n = v.norm_squared();
    assert(0 < n && x * x <= n && y * y <= n) by (nonlinear_arith)
        requires
            n == x * x + y * y,
            x != 0 || y != 0,
    ;
    lemma_unit_magnitude(x, n);
    lemma_unit_magnitude(y, n);
    let mx = unit_magnitude(x, n);
    let my = unit_magnitude(y, n);
    let ux = v.unit().x as int;
    let uy = v.unit().y as int;
    assert(x == 0 ==> mx == 0) by {
        if x == 0 {
            assert(mx == 0) by (nonlinear_arith)
                requires
                    mx * mx * n <= 0,
                    0 <= mx,
                    0 < n,
            ;
        }
    }
    assert(y == 0 ==> my == 0) by {
        if y == 0 {
            assert(y * y * 4294967296 == 0) by (nonlinear_arith)
                requires
                    y == 0,
            ;
            assert(my == 0) by (nonlinear_arith)
                requires
                    my * my * n <= 0,
                    0 <= my,
                    0 < n,
            ;
        }
    }
    assert(ux * ux == mx * mx && uy * uy == my * my) by (nonlinear_arith)
        requires
            ux == mx || ux == -mx,
            uy == my || uy == -my,
    ;
    assert(mx * mx + my * my <= 4294967296) by (nonlinear_arith)
        requires
            mx * mx * n <= x * x * 4294967296,
            my * my * n <= y * y * 4294967296,
            n == x * x + y * y,
            0 < n,
    ;
    assert((mx + 1) * (mx + 1) + (my + 1) * (my + 1) > 4294967296) by (nonlinear_arith)
        requires
            (mx + 1) * (mx + 1) * n > x * x * 4294967296,
            (my + 1) * (my + 1) * n > y * y * 4294967296,
            n == x * x + y * y,
            0 < n,
    ;
    if mx == 0 && my == 0 {
        assert((mx + 1) * (mx + 1) + (my + 1) * (my + 1) == 2) by (nonlinear_arith)
            requires
                mx == 0,
                my == 0,
        ;
    }
}

impl Mul<i64> for Vec2D<i64> {
    type Output = Self;

    /// Scales by a fixed-point factor; each component is rounded down.
    fn mul(self, scalar: i64) -> (r: Self) {
        proof {
            lemma_product_bound(self.x as int, VEC_LIMIT as int, scalar as int, VEC_LIMIT as int);
            lemma_product_bound(self.y as int, VEC_LIMIT as int, scalar as int, VEC_LIMIT as int);
        }
        Vec2D::New(FloorDiv(self.x * scalar, UNIT), FloorDiv(self.y * scalar, UNIT))
    }
}

impl MulSpecImpl<i64> for Vec2D<i64> {
    open spec fn obeys_mul_spec() -> bool {
        true
    }

    open spec fn mul_req(self, scalar: i64) -> bool {
        self.within(VEC_LIMIT as int) && abs(scalar as int) <= VEC_LIMIT
    }

    open spec fn mul_spec(self, scalar: i64) -> Self {
        Vec2D {
            x: ((self.x * scalar) / (UNIT as int)) as i64,
            y: ((self.y * scalar) / (UNIT as int)) as i64,
        }
    }
}

/// The dot product of two fixed-point vectors as a fixed-point number,
/// rounded down.
pub open spec fn dot(v1: Vec2D<i64>, v2: Vec2D<i64>) -> int {
    (v1.x * v2.x + v1.y * v2.y) / (UNIT as int)
}

pub fn Dot(v1: Vec2D<i64>, v2: Vec2D<i64>) -> (r: i64)
    requires
        v1.within(VEC_LIMIT as int),
        v2.within(VEC_LIMIT as int),
    ensures
        r == dot(v1, v2),
{
    proof {
        lemma_product_bound(v1.x as int, VEC_LIMIT as int, v2.x as int, VEC_LIMIT as int);
        lemma_product_bound(v1.y as int, VEC_LIMIT as int, v2.y as int, VEC_LIMIT as int);
    }
    let a: i64 = v1.x * v2.x;
    let b: i64 = v1.y * v2.y;
    // Each product is at most 2^62 in magnitude: the sum is taken in a
    // wider word.
    let s: i128 = (a as i128) + (b as i128);
    let q: i128 = FloorDivWide(s, UNIT as i128);
    q as i64
}

/// A square is bounded by the square of a bound on the magnitude.
pub proof fn lemma_square_bound(x: int, limit: int)
    requires
        abs(x) <= limit,
    ensures
        0 <= x * x <= limit * limit,
{
    assert(0 <= x * x <= limit * limit) by (nonlinear_arith)
        requires
            -limit <= x <= limit,
    ;
}

/// A product is bounded by the product of bounds on the magnitudes.
pub proof fn lemma_product_bound(x: int, xlimit: int, y: int, ylimit: int)
    requires
        abs(x) <= xlimit,
        abs(y) <= ylimit,
    ensures
        -(xlimit * ylimit) <= x * y <= xlimit * ylimit,
{
    assert(-(xlimit * ylimit) <= x * y <= xlimit * ylimit) by (nonlinear_arith)
        requires
            -xlimit <= x <= xlimit,
            -ylimit <= y <= ylimit,
    ;
}

} // verus!
