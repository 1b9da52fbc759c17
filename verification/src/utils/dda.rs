use vstd::prelude::*;
use crate::utils::conventions::{COORD_LIMIT, HALF_UNIT, TILE_LIMIT, UNIT, VEC_LIMIT};
use crate::utils::misc_math::{
    abs, along, get_decimal, is_integer, lemma_floor_sqrt_grows, signum, Abs, Along, GetDecimal,
};
use crate::utils::ray::{coord_at, dist_along, next_line, NextLine, Ray, RayModel};
use crate::utils::vec2d::{iPoint2, lemma_product_bound, tile_of, tile_of_point, Point2};
use crate::utils::walk::{lemma_walk_keeps_lines, lines_kept};

verus! {

/// How a hit point lies on the tile grid.
#[derive(Copy, Clone, PartialEq, Eq, Structural, Debug)]
pub enum wallType_t {
    /// On a line of constant y: the face runs east-west.
    HORIZONTAL,
    /// On a line of constant x: the face runs north-south.
    VERTICAL,
    /// On a crossing of two grid lines.
    CORNER,
    /// On no grid line.
    NONE,
}

impl Default for wallType_t {
    fn default() -> (d: Self)
        ensures
            d == wallType_t::NONE,
    {
        wallType_t::NONE
    }
}

/// The width-percent reported for a point that lies on no face.
pub const NO_WIDTH: i64 = -1;

/// What a cursor remembers about the face under its hit point.
#[derive(Copy, Clone, PartialEq, Eq, Structural, Debug)]
pub struct WallHitInfo {
    pub wallType: wallType_t,
    /// Offset of the hit point along the face, in subunits, or `NO_WIDTH`.
    pub widthPercent: i64,
}

/// The face that a point with the fractional parts `xd` and `yd` lies on.
/// Besides the grid lines themselves, the centerline of a tile counts as a
/// face of the same orientation.
pub open spec fn wall_type_of(xd: int, yd: int) -> wallType_t {
    if (xd == 0 || xd == HALF_UNIT) && yd != 0 {
        wallType_t::VERTICAL
    } else if (yd == 0 || yd == HALF_UNIT) && xd != 0 {
        wallType_t::HORIZONTAL
    } else if xd == 0 && yd == 0 {
        wallType_t::CORNER
    } else {
        wallType_t::NONE
    }
}

/// The face that the point `(px, py)` lies on.
pub open spec fn wall_type_at(px: int, py: int) -> wallType_t {
    wall_type_of(get_decimal(px), get_decimal(py))
}

/// How far along its face the point `(px, py)` lies: the fractional part of
/// the coordinate that runs along the face.
pub open spec fn width_percent_at(px: int, py: int) -> int {
    match wall_type_at(px, py) {
        wallType_t::VERTICAL => get_decimal(py),
        wallType_t::HORIZONTAL => get_decimal(px),
        wallType_t::CORNER => 0,
        wallType_t::NONE => NO_WIDTH as int,
    }
}

/// Whether the crossing on one axis comes strictly before the crossing on
/// the other. The ray moves by `d` on the first axis, where the next grid
/// line is `a` away, and by `dd` on the second, where it is `aa` away.
pub open spec fn comes_first(d: int, a: int, dd: int, aa: int) -> bool {
    d != 0 && (dd == 0 || a * abs(dd) < aa * abs(d))
}

/// The mathematical content of a cursor: its ray, the hit point, the tile
/// it stands on, and the grid lines it crosses next.
pub struct CursorModel {
    pub ray: RayModel,
    pub px: int,
    pub py: int,
    pub tx: int,
    pub ty: int,
    pub nx: int,
    pub ny: int,
}

impl RayModel {
    /// The point `(px, py)` is not behind the origin on either axis.
    pub open spec fn reaches(self, px: int, py: int) -> bool {
        along(px - self.ox, self.dx) >= 0 && along(py - self.oy, self.dy) >= 0
    }
}

impl CursorModel {
    /// How far the next vertical grid line is from the origin, counted in
    /// the sense of travel.
    pub open spec fn ahead_x(self) -> int {
        along(self.nx * UNIT - self.ray.ox, self.ray.dx)
    }

    /// How far the next horizontal grid line is from the origin, counted in
    /// the sense of travel.
    pub open spec fn ahead_y(self) -> int {
        along(self.ny * UNIT - self.ray.oy, self.ray.dy)
    }

    /// The ray meets the next vertical line strictly before the next
    /// horizontal one.
    pub open spec fn x_first(self) -> bool {
        comes_first(self.ray.dx, self.ahead_x(), self.ray.dy, self.ahead_y())
    }

    /// The ray meets the next horizontal line strictly before the next
    /// vertical one.
    pub open spec fn y_first(self) -> bool {
        comes_first(self.ray.dy, self.ahead_y(), self.ray.dx, self.ahead_x())
    }

    /// The cursor at the point `(px, py)`, standing on the tile that holds
    /// the point.
    pub open spec fn at(ray: RayModel, px: int, py: int) -> CursorModel {
        CursorModel {
            ray,
            px,
            py,
            tx: tile_of(px),
            ty: tile_of(py),
            nx: next_line(px, signum(ray.dx)),
            ny: next_line(py, signum(ray.dy)),
        }
    }

    /// The cursor at the origin of a ray.
    pub open spec fn start(ray: RayModel) -> CursorModel {
        CursorModel::at(ray, ray.ox, ray.oy)
    }

    /// The cursor after it went to the nearer of the two next crossings: one
    /// tile along that axis, or one tile along both when the crossings
    /// coincide in a corner.
    pub open spec fn step(self) -> CursorModel {
        let sx = signum(self.ray.dx);
        let sy = signum(self.ray.dy);
        if self.x_first() {
            CursorModel {
                px: self.nx * UNIT,
                py: self.ray.y_at(self.nx * UNIT),
                tx: self.tx + sx,
                nx: self.nx + sx,
                ..self
            }
        } else if self.y_first() {
            CursorModel {
                px: self.ray.x_at(self.ny * UNIT),
                py: self.ny * UNIT,
                ty: self.ty + sy,
                ny: self.ny + sy,
                ..self
            }
        } else {
            CursorModel {
                px: self.nx * UNIT,
                py: self.ny * UNIT,
                tx: self.tx + sx,
                ty: self.ty + sy,
                nx: self.nx + sx,
                ny: self.ny + sy,
                ..self
            }
        }
    }

    /// The cursor after `n` steps.
    pub open spec fn steps(self, n: nat) -> CursorModel
        decreases n,
    {
        if n == 0 {
            self
        } else {
            self.steps((n - 1) as nat).step()
        }
    }

    /// Distance from the ray's origin to the hit point.
    pub open spec fn dist(self) -> int {
        self.ray.dist_to(self.px, self.py)
    }

    /// How many tiles the cursor has covered, counted in the sense of travel
    /// on each axis.
    pub open spec fn progress(self) -> int {
        along(self.tx, self.ray.dx) + along(self.ty, self.ray.dy)
    }

    /// The hit point is not behind the origin, and each next grid line lies
    /// strictly ahead of the origin.
    pub open spec fn ahead(self) -> bool {
        &&& self.ray.reaches(self.px, self.py)
        &&& self.ray.dx != 0 ==> self.ahead_x() > 0
        &&& self.ray.dy != 0 ==> self.ahead_y() > 0
    }

    /// The cursor lies on its ray, as far as the axis on which the ray
    /// covers more ground can tell: the hit point is past neither of the two
    /// next crossings.
    pub open spec fn on_course(self) -> bool {
        if self.ray.x_is_major() {
            major_inv(
                self.ray.ox,
                self.ray.dx,
                self.px,
                self.nx,
                self.ray.oy,
                self.ray.dy,
                self.ny,
            )
        } else {
            major_inv(
                self.ray.oy,
                self.ray.dy,
                self.py,
                self.ny,
                self.ray.ox,
                self.ray.dx,
                self.nx,
            )
        }
    }

    /// The hit point lies on a grid line: one of its coordinates is a whole
    /// number of tiles.
    pub open spec fn on_line(self) -> bool {
        is_integer(self.px) || is_integer(self.py)
    }

    /// The ray moves across the face under the hit point, so it goes on to
    /// the centerline parallel to that face: along x from a vertical face,
    /// along y from any other.
    pub open spec fn crosses_center(self) -> bool {
        if wall_type_at(self.px, self.py) == wallType_t::VERTICAL {
            self.ray.dx != 0
        } else {
            self.ray.dy != 0
        }
    }

    /// The cursor half a tile further along the axis that crosses the face
    /// under the hit point: where the ray crosses the centerline parallel
    /// to that face. It stands on the tile that holds that point, which is
    /// another tile than before where the ray leaves through a side first.
    pub open spec fn center(self) -> CursorModel {
        if wall_type_at(self.px, self.py) == wallType_t::VERTICAL {
            let cx = self.px + along(HALF_UNIT as int, self.ray.dx);
            CursorModel::at(self.ray, cx, self.ray.y_at(cx))
        } else {
            let cy = self.py + along(HALF_UNIT as int, self.ray.dy);
            CursorModel::at(self.ray, self.ray.x_at(cy), cy)
        }
    }
}

/// What holds of a cursor on its ray, seen from the axis on which the ray
/// covers more ground. On that axis the ray starts at `o`, moves by `d`, has
/// its hit point at `p` and its next grid line at `n`; on the other axis it
/// starts at `oo`, moves by `dd` and has its next grid line at `nn`.
pub open spec fn major_inv(o: int, d: int, p: int, n: int, oo: int, dd: int, nn: int) -> bool {
    let run = along(p - o, d);
    let a = along(n * UNIT - o, d);
    let aa = along(nn * UNIT - oo, dd);
    &&& d != 0
    &&& abs(dd) <= abs(d)
    &&& 0 <= run <= a
    &&& 0 < a
    &&& dd != 0 ==> 0 < aa && run * abs(dd) <= aa * abs(d)
}

/// A step into a corner keeps the cursor on course and does not bring the
/// hit point nearer to the origin.
proof fn lemma_major_tie(o: int, d: int, p: int, n: int, oo: int, dd: int, nn: int)
    requires
        major_inv(o, d, p, n, oo, dd, nn),
        dd != 0,
        along(n * UNIT - o, d) * abs(dd) == along(nn * UNIT - oo, dd) * abs(d),
    ensures
        major_inv(o, d, n * UNIT, n + signum(d), oo, dd, nn + signum(dd)),
        along(n * UNIT - o, d) >= along(p - o, d),
{
    let a = along(n * UNIT - o, d);
    let aa = along(nn * UNIT - oo, dd);
    assert(a * abs(dd) <= (aa + UNIT) * abs(d)) by (nonlinear_arith)
        requires
            a * abs(dd) == aa * abs(d),
            abs(d) >= 0,
    ;
}

/// A step to the crossing on the minor axis keeps the cursor on course and
/// does not bring the hit point nearer to the origin.
proof fn lemma_minor_first(o: int, d: int, p: int, n: int, oo: int, dd: int, nn: int)
    requires
        major_inv(o, d, p, n, oo, dd, nn),
        comes_first(dd, along(nn * UNIT - oo, dd), d, along(n * UNIT - o, d)),
    ensures
        major_inv(o, d, coord_at(oo, dd, o, d, nn * UNIT), n, oo, dd, nn + signum(dd)),
        along(coord_at(oo, dd, o, d, nn * UNIT) - o, d) >= along(p - o, d),
{
    let run = along(p - o, d);
    let a = along(n * UNIT - o, d);
    let aa = along(nn * UNIT - oo, dd);
    let big = abs(d);
    let small = abs(dd);
    let v = aa * big;
    // The hit point moves by q on the major axis, rounded down.
    let q = (aa * d) / small;
    if d > 0 {
        vstd::arithmetic::div_mod::lemma_fundamental_div_mod(v, small);
        vstd::arithmetic::div_mod::lemma_mod_bound(v, small);
        let r = v % small;
        assert(q <= a) by (nonlinear_arith)
            requires
                small * q + r == v,
                0 <= r,
                v < a * small,
                small > 0,
        ;
        assert(run <= q) by (nonlinear_arith)
            requires
                small * q + r == v,
                r < small,
                run * small <= v,
                small > 0,
        ;
        assert(q * small <= (aa + UNIT) * big) by (nonlinear_arith)
            requires
                small * q + r == v,
                0 <= r,
                v == aa * big,
                big > 0,
        ;
    } else {
        assert(aa * d == -v) by (nonlinear_arith)
            requires
                v == aa * big,
                big == -d,
        ;
        // q is negative: its magnitude c is v / small, rounded up.
        let c = -q;
        vstd::arithmetic::div_mod::lemma_fundamental_div_mod(-v, small);
        let r = (-v) % small;
        assert(c <= a) by (nonlinear_arith)
            requires
                small * (-c) + r == -v,
                r < small,
                v < a * small,
                small > 0,
        ;
        assert(run <= c) by (nonlinear_arith)
            requires
                small * (-c) + r == -v,
                0 <= r,
                run * small <= v,
                small > 0,
        ;
        assert(c * small <= (aa + UNIT) * big) by (nonlinear_arith)
            requires
                small * (-c) + r == -v,
                r < small,
                v == aa * big,
                small <= big,
                UNIT >= 1,
                big > 0,
        ;
    }
}

/// At its origin a ray's cursor is on course and ahead of the origin.
pub proof fn lemma_start_on_course(r: RayModel)
    requires
        r.valid(),
    ensures
        CursorModel::start(r).on_course(),
        CursorModel::start(r).ahead(),
{
    let c = CursorModel::start(r);
}

/// Along one axis, a point further from the origin in the sense of travel
/// is at a greater or equal distance along the ray.
proof fn lemma_dist_grows(o: int, d: int, dd: int, near: int, far: int)
    requires
        d != 0,
        0 <= along(near - o, d) <= along(far - o, d),
    ensures
        dist_along(o, d, dd, near) <= dist_along(o, d, dd, far),
{
    let n = d * d + dd * dd;
    let a = (near - o) * (near - o) * n;
    let b = (far - o) * (far - o) * n;
    assert(0 <= a <= b && d * d > 0) by (nonlinear_arith)
        requires
            abs(near - o) <= abs(far - o),
            a == (near - o) * (near - o) * n,
            b == (far - o) * (far - o) * n,
            n == d * d + dd * dd,
            d != 0,
    ;
    vstd::arithmetic::div_mod::lemma_div_is_ordered(a, b, d * d);
    lemma_floor_sqrt_grows(a / (d * d), b / (d * d));
}

/// A step of a cursor that is on course leaves it on course, and its hit
/// point no nearer to the origin.
pub proof fn lemma_step_on_course(c: CursorModel)
    requires
        c.ray.valid(),
        c.on_course(),
    ensures
        c.step().on_course(),
        c.step().dist() >= c.dist(),
        c.step().ray == c.ray,
{
    let r = c.ray;
    let n = c.step();
    if r.x_is_major() {
        if c.x_first() {
        } else if c.y_first() {
            lemma_minor_first(r.ox, r.dx, c.px, c.nx, r.oy, r.dy, c.ny);
        } else {
            lemma_major_tie(r.ox, r.dx, c.px, c.nx, r.oy, r.dy, c.ny);
        }
        lemma_dist_grows(r.ox, r.dx, r.dy, c.px, n.px);
    } else {
        if c.y_first() {
        } else if c.x_first() {
            lemma_minor_first(r.oy, r.dy, c.py, c.ny, r.ox, r.dx, c.nx);
        } else {
            lemma_major_tie(r.oy, r.dy, c.py, c.ny, r.ox, r.dx, c.nx);
        }
        lemma_dist_grows(r.oy, r.dy, r.dx, c.py, n.py);
    }
}

/// Every step takes the cursor to another tile, one further in the sense of
/// travel on at least one axis and never one back.
pub proof fn lemma_step_progress(c: CursorModel)
    requires
        c.ray.valid(),
    ensures
        c.step().ray == c.ray,
        c.step().progress() > c.progress(),
        c.step().tx != c.tx || c.step().ty != c.ty,
        along(c.step().tx - c.tx, c.ray.dx) >= 0,
        along(c.step().ty - c.ty, c.ray.dy) >= 0,
{
}

/// After `j` steps the cursor has covered at least `j - i` tiles more than
/// after `i`.
pub proof fn lemma_steps_progress(c: CursorModel, i: nat, j: nat)
    requires
        c.ray.valid(),
        i <= j,
    ensures
        c.steps(j).ray == c.ray,
        c.steps(j).progress() >= c.steps(i).progress() + (j - i),
    decreases j,
{
    if j == 0 {
    } else if i == j {
        lemma_steps_progress(c, 0, (j - 1) as nat);
    } else {
        lemma_steps_progress(c, i, (j - 1) as nat);
    }
}

/// No tile is visited twice: after different numbers of steps a cursor
/// stands on different tiles.
pub proof fn lemma_never_revisits(c: CursorModel, i: nat, j: nat)
    requires
        c.ray.valid(),
        i < j,
    ensures
        c.steps(i).tx != c.steps(j).tx || c.steps(i).ty != c.steps(j).ty,
{
    lemma_steps_progress(c, i, j);
    lemma_steps_progress(c, 0, i);
}

/// However many steps a cursor that is on course takes, it stays on course.
pub proof fn lemma_steps_on_course(c: CursorModel, n: nat)
    requires
        c.ray.valid(),
        c.on_course(),
    ensures
        c.steps(n).on_course(),
        c.steps(n).ray == c.ray,
    decreases n,
{
    if n > 0 {
        lemma_steps_on_course(c, (n - 1) as nat);
        lemma_step_on_course(c.steps((n - 1) as nat));
    }
}

/// The distance of a cursor that is on course never decreases from one hit
/// to a later one.
pub proof fn lemma_distance_grows(c: CursorModel, i: nat, j: nat)
    requires
        c.ray.valid(),
        c.on_course(),
        i <= j,
    ensures
        c.steps(i).dist() <= c.steps(j).dist(),
    decreases j,
{
    if i < j {
        lemma_distance_grows(c, i, (j - 1) as nat);
        lemma_steps_on_course(c, (j - 1) as nat);
        lemma_step_on_course(c.steps((j - 1) as nat));
    }
}

/// The distance from a ray's origin never decreases across successive hits
/// of a cursor that started there.
pub proof fn lemma_distance_never_decreases(r: RayModel, i: nat, j: nat)
    requires
        r.valid(),
        i <= j,
    ensures
        CursorModel::start(r).steps(i).dist() <= CursorModel::start(r).steps(j).dist(),
{
    lemma_start_on_course(r);
    lemma_distance_grows(CursorModel::start(r), i, j);
}

/// A coordinate on a grid line has no fractional part.
pub proof fn lemma_line_on_face(n: int)
    ensures
        get_decimal(n * UNIT) == 0,
{
}

/// Where the ray is on the second axis keeps the sense of travel on that
/// axis, as long as the point is not behind the origin on the first.
pub proof fn lemma_coord_sign(o: int, d: int, oo: int, dd: int, c: int)
    requires
        d != 0,
        along(c - o, d) >= 0,
    ensures
        along(coord_at(o, d, oo, dd, c) - oo, dd) >= 0,
{
    let a = along(c - o, d);
    let big = abs(d);
    if dd > 0 {
    } else if dd < 0 {
        assert(a * dd <= 0) by (nonlinear_arith)
            requires
                a >= 0,
                dd < 0,
        ;
        if a * dd < 0 {
            crate::utils::misc_math::lemma_floor_of_negative(a * dd, big);
        }
    }
}

/// When the crossing on the first axis comes strictly before the one on the
/// second, the ray is then, on the second axis, between its origin and the
/// next grid line.
pub proof fn lemma_cross_within(o: int, d: int, oo: int, dd: int, n: int, nn: int)
    requires
        d != 0,
        0 < along(n * UNIT - o, d),
        dd != 0 ==> 0 < along(nn * UNIT - oo, dd),
        comes_first(d, along(n * UNIT - o, d), dd, along(nn * UNIT - oo, dd)),
    ensures
        dd == 0 ==> coord_at(o, d, oo, dd, n * UNIT) == oo,
        dd != 0 ==> 0 <= along(coord_at(o, d, oo, dd, n * UNIT) - oo, dd) <= along(
            nn * UNIT - oo,
            dd,
        ),
{
    let a = along(n * UNIT - o, d);
    let aa = along(nn * UNIT - oo, dd);
    let big = abs(d);
    let q = (a * dd) / big;
    if dd == 0 {
    } else if dd > 0 {
        let v = a * dd;
        vstd::arithmetic::div_mod::lemma_fundamental_div_mod(v, big);
        let r = v % big;
        assert(0 <= q <= aa) by (nonlinear_arith)
            requires
                big * q + r == v,
                0 <= r < big,
                0 <= v < aa * big,
                big > 0,
        ;
    } else {
        let v = a * abs(dd);
        assert(v >= 0 && a * dd == -v) by (nonlinear_arith)
            requires
                v == a * abs(dd),
                a > 0,
                dd < 0,
                abs(dd) == -dd,
        ;
        vstd::arithmetic::div_mod::lemma_fundamental_div_mod(-v, big);
        let r = (-v) % big;
        assert(0 <= -q <= aa) by (nonlinear_arith)
            requires
                big * q + r == -v,
                0 <= r < big,
                0 <= v < aa * big,
                big > 0,
        ;
    }
}

/// A well-formed cursor is on course: its hit point is past neither of the
/// next crossings of its ray with a grid line.
pub proof fn lemma_walked_on_course(c: RayCursor)
    requires
        c.wf(),
    ensures
        c@.on_course(),
{
    let k = choose|k: nat| c.walked(k);
    lemma_start_on_course(c.ray@);
    lemma_steps_on_course(CursorModel::start(c.ray@), k);
}

/// Of two cursors that stand at the same place on the same ray, one has
/// walked there if the other has, whatever they remember.
pub proof fn lemma_same_walk(a: RayCursor, b: RayCursor)
    requires
        b.placed(),
        a@ == b@,
        a.ray == b.ray,
    ensures
        a.wf() ==> b.wf(),
{
    if a.wf() {
        let k = choose|k: nat| a.walked(k);
        assert(b.walked(k));
    }
}

/// The index of a grid line as a tile index, held within the range of one.
fn LineIndex(n: i64) -> (i: i32)
    ensures
        i32::MIN <= n <= i32::MAX ==> i == n,
{
    if n < -2147483648 {
        i32::MIN
    } else if n > 2147483647 {
        i32::MAX
    } else {
        n as i32
    }
}

/// An incremental walker over the tile grid along a ray. It stands on a hit
/// point of the ray and on a tile, knows which grid line it crosses next on
/// each axis, and remembers the face under the hit point once asked for it.
#[derive(Copy, Clone, Debug)]
pub struct RayCursor {
    pub ray: Ray,
    pub hitPoint: Point2,
    pub hitTile: iPoint2,
    /// Index of the next vertical (`x`) and horizontal (`y`) grid line.
    pub nextLine: iPoint2,
    /// The face under the hit point, once computed; `None` after a step.
    pub wallHit: Option<WallHitInfo>,
}

impl View for RayCursor {
    type V = CursorModel;

    open spec fn view(&self) -> CursorModel {
        CursorModel {
            ray: self.ray@,
            px: self.hitPoint.x as int,
            py: self.hitPoint.y as int,
            tx: self.hitTile.x as int,
            ty: self.hitTile.y as int,
            nx: self.nextLine.x as int,
            ny: self.nextLine.y as int,
        }
    }
}

impl RayCursor {
    /// The face under the hit point and the offset along it.
    pub open spec fn hit_info(self) -> WallHitInfo {
        WallHitInfo {
            wallType: wall_type_at(self.hitPoint.x as int, self.hitPoint.y as int),
            widthPercent: width_percent_at(self.hitPoint.x as int, self.hitPoint.y as int) as i64,
        }
    }

    /// The tile of this cursor lies one step from the tile of `before`:
    /// one tile on in the sense of travel along x, along y, or along both,
    /// and never one back.
    pub open spec fn one_step_from(self, before: RayCursor) -> bool {
        let x = self.hitTile.x - before.hitTile.x;
        let y = self.hitTile.y - before.hitTile.y;
        ||| x == self.ray.xDirVec.x && y == 0
        ||| x == 0 && y == self.ray.yDirVec.y
        ||| x == self.ray.xDirVec.x && y == self.ray.yDirVec.y
    }

    /// The cursor stands on the tile on which the cursor `c` stands.
    pub open spec fn stands_on(self, c: CursorModel) -> bool {
        c.tx == self.hitTile.x && c.ty == self.hitTile.y
    }

    /// The cursor has come to where it stands by `k` steps from the origin
    /// of its ray.
    pub open spec fn walked(self, k: nat) -> bool {
        self@ == CursorModel::start(self.ray@).steps(k)
    }

    /// The cursor is placed, and it has come to where it stands by steps
    /// from the origin of its ray. So its tile and its next grid lines are
    /// those of the walk. Each next line lies ahead of the hit point, at
    /// most one tile away, and the tile moves with the lines (see
    /// `lines_kept`); the hit point is past neither of the next crossings
    /// (see `on_course`): no crossing was left out.
    pub open spec fn wf(self) -> bool {
        &&& self.placed()
        &&& exists|k: nat| self.walked(k)
    }

    /// The ray is well formed, the cursor is ahead of the ray's origin and
    /// within the machine limits, each next grid line is at most one tile
    /// from the tile that the cursor stands on, and what the cursor
    /// remembers of the face under the hit point is true of that point.
    /// This is what can be said of a cursor on a centerline too.
    pub open spec fn placed(self) -> bool {
        &&& self.ray.wf()
        &&& self.hitPoint.within(3 * VEC_LIMIT)
        &&& abs(self.hitTile.x as int) <= TILE_LIMIT
        &&& abs(self.hitTile.y as int) <= TILE_LIMIT
        &&& abs(self.nextLine.x - self.hitTile.x) <= 1
        &&& abs(self.nextLine.y - self.hitTile.y) <= 1
        &&& self@.ahead()
        &&& self.wallHit matches Some(info) ==> info == self.hit_info()
    }

    /// The cursor once it was asked for the face under its hit point: it
    /// remembers the face.
    pub open spec fn recalled(self) -> RayCursor {
        RayCursor { wallHit: Some(self.hit_info()), ..self }
    }

    /// The hit point lies on a face of a tile: on a grid line.
    pub open spec fn on_face(self) -> bool {
        self@.on_line()
    }

    /// The two cursors are well formed and stand at the same place on the
    /// same ray; they may differ in what they remember.
    pub open spec fn same_place(self, other: RayCursor) -> bool {
        &&& self.wf()
        &&& other.wf()
        &&& self.ray == other.ray
        &&& self.hitPoint == other.hitPoint
        &&& self.hitTile == other.hitTile
        &&& self.nextLine == other.nextLine
    }

    /// The cursor is not on the rim of the area that cursors can cover, so
    /// it can take a step.
    pub open spec fn can_advance(self) -> bool {
        abs(self.hitTile.x as int) < TILE_LIMIT && abs(self.hitTile.y as int) < TILE_LIMIT
    }

    /// A cursor over `ray` at `hitPoint`, a point of the ray. At the origin
    /// of the ray the cursor is ready to walk.
    pub fn New(ray: Ray, hitPoint: Point2) -> (c: Self)
        requires
            ray.wf(),
            hitPoint.within(COORD_LIMIT as int),
            ray@.reaches(hitPoint.x as int, hitPoint.y as int),
        ensures
            c.placed(),
            c.can_advance(),
            c.ray == ray,
            c.hitPoint == hitPoint,
            c.wallHit.is_none(),
            c@ == CursorModel::at(ray@, hitPoint.x as int, hitPoint.y as int),
            hitPoint == ray.origin ==> c.wf() && c.walked(0) && c@.on_course(),
    {
        let nx: i64 = NextLine(hitPoint.x, ray.xDir.Sign());
        let ny: i64 = NextLine(hitPoint.y, ray.yDir.Sign());
        let hitTile: iPoint2 = iPoint2::from(hitPoint);
        let c = RayCursor { ray, hitPoint, hitTile, nextLine: iPoint2::New(nx as i32, ny as i32), wallHit: None };
        proof {
            if hitPoint == ray.origin {
                lemma_start_on_course(ray@);
                assert(CursorModel::start(ray@).steps(0) == CursorModel::start(ray@));
                assert(c.walked(0));
            }
        }
        c
    }

    /// Works out the face under the hit point and remembers it.
    fn CalculateWallHitInfo(&mut self)
        ensures
            *final(self) == old(self).recalled(),
    {
        let xDecimal: i64 = GetDecimal(self.hitPoint.x);
        let yDecimal: i64 = GetDecimal(self.hitPoint.y);
        let xIsInt: bool = xDecimal == 0;
        let yIsInt: bool = yDecimal == 0;
        let xIsMiddle: bool = xDecimal == HALF_UNIT;
        let yIsMiddle: bool = yDecimal == HALF_UNIT;

        if (xIsInt || xIsMiddle) && !yIsInt {
            self.wallHit = Some(WallHitInfo { wallType: wallType_t::VERTICAL, widthPercent: yDecimal });
        } else if (yIsInt || yIsMiddle) && !xIsInt {
            self.wallHit = Some(WallHitInfo { wallType: wallType_t::HORIZONTAL, widthPercent: xDecimal });
        } else if xIsInt && yIsInt {
            self.wallHit = Some(WallHitInfo { wallType: wallType_t::CORNER, widthPercent: 0 });
        } else {
            self.wallHit = Some(WallHitInfo { wallType: wallType_t::NONE, widthPercent: NO_WIDTH });
        }
    }

    /// Forgets the face under the hit point.
    fn ClearWallHitInfo(&mut self)
        ensures
            *final(self) == (RayCursor { wallHit: None, ..*old(self) }),
    {
        self.wallHit = None;
    }

    /// The face under the hit point. It is worked out on the first call
    /// after a step and remembered for the later ones.
    pub fn GetWallType(&mut self) -> (t: wallType_t)
        requires
            old(self).placed(),
        ensures
            t == wall_type_at(old(self).hitPoint.x as int, old(self).hitPoint.y as int),
            *final(self) == old(self).recalled(),
            final(self).placed(),
            old(self).wf() ==> final(self).wf(),
    {
        if self.wallHit.is_none() {
            self.CalculateWallHitInfo();
        }
        proof {
            lemma_same_walk(*old(self), *self);
        }
        match self.wallHit {
            Some(info) => info.wallType,
            None => wallType_t::NONE,
        }
    }

    /// The offset of the hit point along the face under it, in subunits, or
    /// `NO_WIDTH` when the point lies on no face.
    pub fn GetWidthPercent(&mut self) -> (w: i64)
        requires
            old(self).placed(),
        ensures
            w == width_percent_at(old(self).hitPoint.x as int, old(self).hitPoint.y as int),
            -1 <= w < UNIT,
            *final(self) == old(self).recalled(),
            final(self).placed(),
            old(self).wf() ==> final(self).wf(),
    {
        if self.wallHit.is_none() {
            self.CalculateWallHitInfo();
        }
        proof {
            lemma_same_walk(*old(self), *self);
        }
        match self.wallHit {
            Some(info) => info.widthPercent,
            None => NO_WIDTH,
        }
    }

    /// Whether the cursor can take a step within the machine limits.
    pub fn CanAdvance(&self) -> (b: bool)
        ensures
            b == self.can_advance(),
    {
        -TILE_LIMIT < self.hitTile.x && self.hitTile.x < TILE_LIMIT && -TILE_LIMIT < self.hitTile.y
            && self.hitTile.y < TILE_LIMIT
    }

    /// Takes the step of `GoToNextHit`.
    fn Advance(&mut self)
        requires
            old(self).placed(),
            old(self).can_advance(),
        ensures
            final(self).placed(),
            final(self).on_face(),
            final(self).ray == old(self).ray,
            final(self)@ == old(self)@.step(),
            final(self).wallHit.is_none(),
            final(self).hitTile != old(self).hitTile,
            final(self).one_step_from(*old(self)),
    {
        let ray: Ray = self.ray;
        proof {
            lemma_line_on_face(self.nextLine.x as int);
        }
        let lineX: i64 = (self.nextLine.x as i64) * UNIT;
        let lineY: i64 = (self.nextLine.y as i64) * UNIT;
        let aheadX: i64 = Along(lineX - ray.origin.x, ray.course.x);
        let aheadY: i64 = Along(lineY - ray.origin.y, ray.course.y);
        let adx: i64 = Abs(ray.course.x);
        let ady: i64 = Abs(ray.course.y);
        proof {
            lemma_product_bound(aheadX as int, 4294967296, ady as int, 1048576);
            lemma_product_bound(aheadY as int, 4294967296, adx as int, 1048576);
        }
        let xFirst: bool = ray.course.x != 0 && (ray.course.y == 0 || aheadX * ady < aheadY * adx);
        let yFirst: bool = ray.course.y != 0 && (ray.course.x == 0 || aheadY * adx < aheadX * ady);

        if xFirst {
            proof {
                lemma_cross_within(ray@.ox, ray@.dx, ray@.oy, ray@.dy, self@.nx, self@.ny);
            }
            self.hitPoint = Point2::New(lineX, ray.yAt(lineX));
            self.hitTile = self.hitTile + ray.xDirVec;
            self.nextLine = self.nextLine + ray.xDirVec;
        } else if yFirst {
            proof {
                lemma_cross_within(ray@.oy, ray@.dy, ray@.ox, ray@.dx, self@.ny, self@.nx);
            }
            self.hitPoint = Point2::New(ray.xAt(lineY), lineY);
            self.hitTile = self.hitTile + ray.yDirVec;
            self.nextLine = self.nextLine + ray.yDirVec;
        } else {
            self.hitPoint = Point2::New(lineX, lineY);
            self.hitTile = self.hitTile + ray.xDirVec + ray.yDirVec;
            self.nextLine = self.nextLine + ray.xDirVec + ray.yDirVec;
        }

        self.ClearWallHitInfo();
    }

    /// Goes to the nearer of the next crossing of a vertical and of a
    /// horizontal grid line and enters the tile behind it. Where both are
    /// equally near the cursor goes into the corner and enters the tile
    /// diagonally behind it. The cursor comes no nearer to the origin of
    /// its ray, and onto a tile on which it has not stood before: not at
    /// the origin and after none of the steps that it has taken.
    pub fn GoToNextHit(&mut self)
        requires
            old(self).wf(),
            old(self).can_advance(),
        ensures
            final(self).wf(),
            final(self).on_face(),
            final(self).ray == old(self).ray,
            final(self)@ == old(self)@.step(),
            final(self).wallHit.is_none(),
            final(self).hitTile != old(self).hitTile,
            final(self).one_step_from(*old(self)),
            lines_kept(final(self)@),
            final(self)@.on_course(),
            final(self)@.dist() >= old(self)@.dist(),
            forall|k: nat| old(self).walked(k) ==> #[trigger] final(self).walked(k + 1),
            forall|k: nat, j: nat|
                #![trigger old(self).walked(k), CursorModel::start(old(self).ray@).steps(j)]
                old(self).walked(k) && j <= k ==> !final(self).stands_on(
                    CursorModel::start(old(self).ray@).steps(j),
                ),
    {
        let ghost start = CursorModel::start(self.ray@);
        let ghost taken: nat = choose|k: nat| self.walked(k);
        proof {
            lemma_start_on_course(self.ray@);
            lemma_steps_on_course(start, taken);
            lemma_step_on_course(self@);
        }
        self.Advance();
        proof {
            assert(self.walked(taken + 1)) by {
                assert(start.steps(taken + 1) == start.steps(taken).step());
            }
            lemma_walk_keeps_lines(self.ray@, taken + 1);
            assert forall|k: nat| old(self).walked(k) implies #[trigger] self.walked(k + 1) by {
                assert(start.steps(k + 1) == start.steps(k).step());
            }
            assert forall|k: nat, j: nat|
                #![trigger old(self).walked(k), start.steps(j)]
                old(self).walked(k) && j <= k implies !self.stands_on(start.steps(j)) by {
                assert(start.steps(k + 1) == start.steps(k).step());
                lemma_never_revisits(start, j, k + 1);
            }
        }
    }

    /// The cursor one step further.
    pub fn GetNextHit(self) -> (c: Self)
        requires
            self.wf(),
            self.can_advance(),
        ensures
            c.wf(),
            c.on_face(),
            c.ray == self.ray,
            c@ == self@.step(),
            c.wallHit.is_none(),
            c.hitTile != self.hitTile,
            c.one_step_from(self),
            c@.on_course(),
            c@.dist() >= self@.dist(),
            forall|k: nat| self.walked(k) ==> #[trigger] c.walked(k + 1),
    {
        let mut c = self;
        c.GoToNextHit();
        c
    }

    /// Whether the ray moves across the face under the hit point, so that
    /// the cursor can go on to the centerline.
    pub fn CrossesCenter(&self) -> (b: bool)
        requires
            self.placed(),
        ensures
            b == self@.crosses_center(),
    {
        let mut probe = *self;
        if probe.GetWallType() == wallType_t::VERTICAL {
            self.ray.course.x != 0
        } else {
            self.ray.course.y != 0
        }
    }

    /// The point half a tile further along the axis that crosses the face
    /// under the hit point.
    fn CenterPoint(&mut self) -> (p: Point2)
        requires
            old(self).placed(),
            old(self)@.crosses_center(),
        ensures
            *final(self) == old(self).recalled(),
            final(self).placed(),
            p.x == old(self)@.center().px,
            p.y == old(self)@.center().py,
            old(self)@.ray.reaches(p.x as int, p.y as int),
    {
        let ray: Ray = self.ray;
        let wallType = self.GetWallType();
        if wallType == wallType_t::VERTICAL {
            let cx: i64 = self.hitPoint.x + Along(HALF_UNIT, ray.course.x);
            proof {
                lemma_coord_sign(ray@.ox, ray@.dx, ray@.oy, ray@.dy, cx as int);
            }
            Point2::New(cx, ray.yAt(cx))
        } else {
            let cy: i64 = self.hitPoint.y + Along(HALF_UNIT, ray.course.y);
            proof {
                lemma_coord_sign(ray@.oy, ray@.dy, ray@.ox, ray@.dx, cy as int);
            }
            Point2::New(ray.xAt(cy), cy)
        }
    }

    /// Moves the cursor half a tile along the axis that crosses the face
    /// under its hit point, to where the ray crosses the centerline
    /// parallel to that face, and onto the tile that holds that point. The
    /// cursor must stand on a grid line that its ray crosses. Where the ray
    /// leaves the tile through a side before the centerline, the cursor
    /// comes to stand on another tile. A cursor on a centerline is placed,
    /// within the limits, but it is off the grid lines and walks no
    /// further.
    pub fn GoToNextCenterHit(&mut self)
        requires
            old(self).placed(),
            old(self).on_face(),
            old(self)@.crosses_center(),
        ensures
            final(self).ray == old(self).ray,
            final(self).hitPoint.x == old(self)@.center().px,
            final(self).hitPoint.y == old(self)@.center().py,
            final(self).hitTile == tile_of_point(final(self).hitPoint),
            final(self).wallHit == Some(final(self).hit_info()),
            final(self).hitPoint.within(2 * VEC_LIMIT) ==> final(self)@ == old(self)@.center(),
            final(self).hitTile == old(self).hitTile ==> final(self).placed() && final(self)@ == old(
                self,
            )@.center(),
    {
        let center: Point2 = self.CenterPoint();
        let ray: Ray = self.ray;
        let nx: i64 = NextLine(center.x, ray.xDir.Sign());
        let ny: i64 = NextLine(center.y, ray.yDir.Sign());
        self.hitPoint = center;
        self.hitTile = iPoint2::from(center);
        self.nextLine = iPoint2::New(LineIndex(nx), LineIndex(ny));
        self.CalculateWallHitInfo();
    }

    /// A cursor half a tile further along the axis that crosses the face
    /// under the hit point of this one.
    pub fn GetNextCenterHit(self) -> (c: Self)
        requires
            self.placed(),
            self.on_face(),
            self@.crosses_center(),
        ensures
            c.ray == self.ray,
            c.hitPoint.x == self@.center().px,
            c.hitPoint.y == self@.center().py,
            c.hitTile == tile_of_point(c.hitPoint),
            c.wallHit == Some(c.hit_info()),
            c.hitPoint.within(2 * VEC_LIMIT) ==> c@ == self@.center(),
            c.hitTile == self.hitTile ==> c.placed() && c@ == self@.center(),
    {
        let mut c = self;
        c.GoToNextCenterHit();
        c
    }

    /// Distance from the ray's origin to the hit point.
    pub fn GetDistToHitPoint(&self) -> (dist: i64)
        requires
            self.placed(),
        ensures
            dist == self@.dist(),
            dist >= 0,
    {
        self.ray.DistToPoint(self.hitPoint)
    }
}

} // verus!
