use vstd::prelude::*;
use crate::utils::conventions::{xDir_t, yDir_t, COORD_LIMIT, DIR_LIMIT, UNIT, VEC_LIMIT};
use crate::utils::misc_math::{abs, along, floor_sqrt, Abs, FloorDiv, FloorSqrtWide};
use crate::utils::vec2d::{iVec2, lemma_product_bound, lemma_square_bound, Point2, Vec2, Vec2D};

verus! {

/// Index of the grid line that a coordinate `p` reaches next when it moves
/// in the sense `s` (positive, negative or zero). A coordinate that lies
/// exactly on a grid line reaches the line one full tile further.
pub open spec fn next_line(p: int, s: int) -> int {
    let u = UNIT as int;
    if s > 0 {
        p / u + 1
    } else if s < 0 {
        if p % u == 0 {
            p / u - 1
        } else {
            p / u
        }
    } else {
        p / u
    }
}

/// Where a ray is on the second axis when it is at `c` on the first, rounded
/// down. The ray starts at `o` on the first axis and `oo` on the second and
/// moves by `d` (not zero) and `dd` per unit of its parameter.
pub open spec fn coord_at(o: int, d: int, oo: int, dd: int, c: int) -> int {
    oo + (along(c - o, d) * dd) / abs(d)
}

/// Length of the piece of a ray between its origin `o` and the point with
/// coordinate `c`, both on an axis along which the ray moves by `d` (not
/// zero) while it moves by `dd` along the other axis; rounded down. The
/// piece is `|c - o| / |d|` times as long as the direction of the ray.
pub open spec fn dist_along(o: int, d: int, dd: int, c: int) -> int {
    floor_sqrt(((c - o) * (c - o) * (d * d + dd * dd)) / (d * d))
}

/// The mathematical content of a ray: where it starts and how it moves.
pub struct RayModel {
    pub ox: int,
    pub oy: int,
    pub dx: int,
    pub dy: int,
}

impl RayModel {
    /// The direction is not the zero vector.
    pub open spec fn valid(self) -> bool {
        self.dx != 0 || self.dy != 0
    }

    /// Whether the ray covers at least as much ground along x as along y.
    pub open spec fn x_is_major(self) -> bool {
        abs(self.dx) >= abs(self.dy)
    }

    pub open spec fn y_at(self, x: int) -> int {
        coord_at(self.ox, self.dx, self.oy, self.dy, x)
    }

    pub open spec fn x_at(self, y: int) -> int {
        coord_at(self.oy, self.dy, self.ox, self.dx, y)
    }

    /// Distance from the origin to a point of the ray, measured along the
    /// axis on which the ray covers more ground.
    pub open spec fn dist_to(self, px: int, py: int) -> int {
        if self.x_is_major() {
            dist_along(self.ox, self.dx, self.dy, px)
        } else {
            dist_along(self.oy, self.dy, self.dx, py)
        }
    }
}

/// The mathematical content of the ray from `o` along `d`.
pub open spec fn ray_of(o: Point2, d: Vec2) -> RayModel {
    RayModel { ox: o.x as int, oy: o.y as int, dx: d.x as int, dy: d.y as int }
}

/// A half-line through the tile grid: an origin, the direction of unit
/// length, the course, which is the direction as the ray was given it and
/// need not have unit length, and the sense of travel on each axis. The
/// walk through the grid follows the course, which is exact, where the
/// direction of unit length is rounded and might miss a corner.
#[derive(Copy, Clone, Debug)]
pub struct Ray {
    pub origin: Point2,
    pub direction: Vec2,
    /// The direction as it was given: what the walk follows.
    pub course: Vec2,
    pub xDir: xDir_t,
    pub yDir: yDir_t,
    /// `<1,0>` when the ray travels east, `<-1,0>` when it travels west.
    pub xDirVec: iVec2,
    /// `<0,1>` when the ray travels north, `<0,-1>` when it travels south.
    pub yDirVec: iVec2,
}

impl View for Ray {
    type V = RayModel;

    open spec fn view(&self) -> RayModel {
        RayModel {
            ox: self.origin.x as int,
            oy: self.origin.y as int,
            dx: self.course.x as int,
            dy: self.course.y as int,
        }
    }
}

impl Ray {
    /// The fields agree with one another and fit the machine limits.
    pub open spec fn wf(self) -> bool {
        &&& self.origin.within(COORD_LIMIT as int)
        &&& self.course.within(DIR_LIMIT as int)
        &&& self.direction == self.course.unit()
        &&& self@.valid()
        &&& self.xDir == xDir_t::of(self.course.x as int)
        &&& self.yDir == yDir_t::of(self.course.y as int)
        &&& self.xDirVec == (Vec2D { x: self.xDir.sign() as i32, y: 0i32 })
        &&& self.yDirVec == (Vec2D { x: 0i32, y: self.yDir.sign() as i32 })
    }

    /// The ray from `o` along `d`, which must not be longer than a walk
    /// can follow within the machine limits. The senses of travel are
    /// those of `d`: none on an axis exactly if `d` does not move along it.
    pub fn New(o: Point2, d: Vec2) -> (r: Self)
        requires
            o.within(COORD_LIMIT as int),
            d.within(DIR_LIMIT as int),
            d.x != 0 || d.y != 0,
        ensures
            r.wf(),
            r.origin == o,
            r.direction == d.unit(),
            r.course == d,
            r.xDir == xDir_t::of(d.x as int),
            r.yDir == yDir_t::of(d.y as int),
            r@ == ray_of(o, d),
    {
        let xDir = xDir_t::Of(d.x);
        let yDir = yDir_t::Of(d.y);
        Ray {
            origin: o,
            direction: d.UnitVector(),
            course: d,
            xDir,
            yDir,
            xDirVec: iVec2::New(xDir.Sign(), 0),
            yDirVec: iVec2::New(0, yDir.Sign()),
        }
    }

    /// Next vertical grid line after the coordinate `x`.
    fn nextX(&self, x: i64) -> (n: i64)
        requires
            abs(x as int) <= 2 * VEC_LIMIT,
        ensures
            n == next_line(x as int, self.xDir.sign()),
            abs(n as int) <= 2 * (VEC_LIMIT / UNIT) + 1,
    {
        NextLine(x, self.xDir.Sign())
    }

    /// Next horizontal grid line after the coordinate `y`.
    fn nextY(&self, y: i64) -> (n: i64)
        requires
            abs(y as int) <= 2 * VEC_LIMIT,
        ensures
            n == next_line(y as int, self.yDir.sign()),
            abs(n as int) <= 2 * (VEC_LIMIT / UNIT) + 1,
    {
        NextLine(y, self.yDir.Sign())
    }

    /// The y coordinate of the ray where its x coordinate is `x`.
    pub fn yAt(&self, x: i64) -> (y: i64)
        requires
            self.wf(),
            self.xDir != xDir_t::NONE,
            abs(x as int) <= 4 * VEC_LIMIT,
        ensures
            y == self@.y_at(x as int),
    {
        CoordAt(self.origin.x, self.course.x, self.origin.y, self.course.y, x)
    }

    /// The x coordinate of the ray where its y coordinate is `y`.
    pub fn xAt(&self, y: i64) -> (x: i64)
        requires
            self.wf(),
            self.yDir != yDir_t::NONE,
            abs(y as int) <= 4 * VEC_LIMIT,
        ensures
            x == self@.x_at(y as int),
    {
        CoordAt(self.origin.y, self.course.y, self.origin.x, self.course.x, y)
    }

    /// Where the ray crosses the next vertical grid line after `currPt`, or
    /// `None` when the ray does not move along x and so crosses none.
    pub fn NextXIntrscPoint(&self, currPt: Point2) -> (r: Option<Point2>)
        requires
            self.wf(),
            currPt.within(VEC_LIMIT as int),
        ensures
            match r {
                Some(p) => {
                    &&& self.xDir != xDir_t::NONE
                    &&& p.x == next_line(currPt.x as int, self.xDir.sign()) * UNIT
                    &&& p.y == self@.y_at(p.x as int)
                },
                None => self.xDir == xDir_t::NONE,
            },
    {
        match self.xDir {
            xDir_t::NONE => None,
            _ => {
                let nextXVal: i64 = self.nextX(currPt.x) * UNIT;
                Some(Point2::New(nextXVal, self.yAt(nextXVal)))
            },
        }
    }

    /// Where the ray crosses the next horizontal grid line after `currPt`,
    /// or `None` when the ray does not move along y and so crosses none.
    pub fn NextYIntrscPoint(&self, currPt: Point2) -> (r: Option<Point2>)
        requires
            self.wf(),
            currPt.within(VEC_LIMIT as int),
        ensures
            match r {
                Some(p) => {
                    &&& self.yDir != yDir_t::NONE
                    &&& p.y == next_line(currPt.y as int, self.yDir.sign()) * UNIT
                    &&& p.x == self@.x_at(p.y as int)
                },
                None => self.yDir == yDir_t::NONE,
            },
    {
        match self.yDir {
            yDir_t::NONE => None,
            _ => {
                let nextYVal: i64 = self.nextY(currPt.y) * UNIT;
                Some(Point2::New(self.xAt(nextYVal), nextYVal))
            },
        }
    }

    /// Distance from the origin to `pt`, which is taken to lie on the ray.
    pub fn DistToPoint(&self, pt: Point2) -> (dist: i64)
        requires
            self.wf(),
            pt.within(4 * VEC_LIMIT),
        ensures
            dist == self@.dist_to(pt.x as int, pt.y as int),
            dist >= 0,
    {
        let ax: i64 = Abs(self.course.x);
        let ay: i64 = Abs(self.course.y);
        if ax >= ay {
            DistAlong(self.origin.x, self.course.x, self.course.y, pt.x)
        } else {
            DistAlong(self.origin.y, self.course.y, self.course.x, pt.y)
        }
    }
}

/// Index of the grid line that `p` reaches next when it moves in the sense
/// `s`.
pub fn NextLine(p: i64, s: i32) -> (n: i64)
    ensures
        n == next_line(p as int, s as int),
        abs(p as int) <= 2 * VEC_LIMIT ==> abs(n as int) <= 2 * (VEC_LIMIT / UNIT) + 1,
{
    let q: i64 = FloorDiv(p, UNIT);
    if s > 0 {
        q + 1
    } else if s < 0 {
        if p - q * UNIT == 0 {
            q - 1
        } else {
            q
        }
    } else {
        q
    }
}

/// Where a ray is on the second axis when it is at `c` on the first.
pub fn CoordAt(o: i64, d: i64, oo: i64, dd: i64, c: i64) -> (r: i64)
    requires
        d != 0,
        abs(o as int) <= COORD_LIMIT,
        abs(oo as int) <= COORD_LIMIT,
        abs(d as int) <= DIR_LIMIT,
        abs(dd as int) <= DIR_LIMIT,
        abs(c as int) <= 4 * VEC_LIMIT,
    ensures
        r == coord_at(o as int, d as int, oo as int, dd as int, c as int),
{
    let a: i64 = if d > 0 {
        c - o
    } else {
        o - c
    };
    proof {
        lemma_product_bound(a as int, 9663676416, dd as int, 1048576);
        lemma_quotient_bound(a * dd, abs(d as int));
    }
    let q: i64 = FloorDiv(a * dd, Abs(d));
    oo + q
}

/// Length of the piece of a ray between its origin and a point, both given
/// by their coordinate on one axis, along which the ray moves by `d`; along
/// the other axis it moves by `dd`.
pub fn DistAlong(o: i64, d: i64, dd: i64, c: i64) -> (r: i64)
    requires
        d != 0,
        abs(o as int) <= COORD_LIMIT,
        abs(d as int) <= DIR_LIMIT,
        abs(dd as int) <= DIR_LIMIT,
        abs(c as int) <= 4 * VEC_LIMIT,
    ensures
        r == dist_along(o as int, d as int, dd as int, c as int),
        r >= 0,
{
    let a: i128 = (c - o) as i128;
    let wd: i128 = d as i128;
    let wdd: i128 = dd as i128;
    proof {
        lemma_square_bound(a as int, 9663676416);
        lemma_square_bound(d as int, 1048576);
        lemma_square_bound(dd as int, 1048576);
        assert(d * d > 0) by (nonlinear_arith)
            requires
                d != 0,
        ;
        lemma_product_bound(a * a, 9663676416int * 9663676416int, d * d + dd * dd, 2199023255552);
    }
    let scaled: i128 = a * a * (wd * wd + wdd * wdd);
    let quotient: i128 = scaled / (wd * wd);
    let r: u128 = FloorSqrtWide(quotient as u128);
    r as i64
}

/// A rounded-down quotient by a positive divisor is no further from zero
/// than the dividend, up to one.
pub proof fn lemma_quotient_bound(n: int, d: int)
    requires
        d > 0,
    ensures
        -abs(n) - 1 <= n / d <= abs(n),
{
    if n >= 0 {
    } else {
        crate::utils::misc_math::lemma_floor_of_negative(n, d);
    }
}

} // verus!
