use vstd::prelude::*;
use crate::utils::conventions::UNIT;
use crate::utils::dda::{lemma_cross_within, CursorModel, RayCursor};
use crate::utils::misc_math::{abs, along, signum};
use crate::utils::ray::{coord_at, next_line, RayModel};
use crate::utils::vec2d::tile_of;

verus! {

/// How far the next vertical grid line is from the hit point of a cursor,
/// counted in the sense of travel.
pub open spec fn lead_x(c: CursorModel) -> int {
    along(c.nx * UNIT - c.px, c.ray.dx)
}

/// How far the next horizontal grid line is from the hit point of a
/// cursor, counted in the sense of travel.
pub open spec fn lead_y(c: CursorModel) -> int {
    along(c.ny * UNIT - c.py, c.ray.dy)
}

/// What a walk keeps of the grid lines. On each axis along which the ray
/// moves, the next grid line lies ahead of the hit point or under it, and
/// no more than one tile ahead, so no line lies between the two. The tile
/// moves with the next line: the two are as far apart as at the origin.
/// And the line one tile before the next one on an axis is not after the
/// next crossing on the other axis: the ray has not left it out.
pub open spec fn lines_kept(c: CursorModel) -> bool {
    let r = c.ray;
    &&& r.dx != 0 ==> 0 <= lead_x(c) <= UNIT && 0 < c.ahead_x()
    &&& r.dy != 0 ==> 0 <= lead_y(c) <= UNIT && 0 < c.ahead_y()
    &&& c.nx - c.tx == next_line(r.ox, signum(r.dx)) - tile_of(r.ox)
    &&& c.ny - c.ty == next_line(r.oy, signum(r.dy)) - tile_of(r.oy)
    &&& r.dx != 0 && r.dy != 0 ==> (c.ahead_y() - UNIT) * abs(r.dx) <= c.ahead_x() * abs(r.dy)
    &&& r.dx != 0 && r.dy != 0 ==> (c.ahead_x() - UNIT) * abs(r.dy) <= c.ahead_y() * abs(r.dx)
}

/// Where the line one tile before the next line of the second axis is not
/// after the next crossing on the first axis, the ray is, at that
/// crossing, at that line or past it on the second axis.
proof fn lemma_cross_past(o: int, d: int, oo: int, dd: int, n: int, nn: int)
    requires
        d != 0,
        dd != 0,
        0 < along(n * UNIT - o, d),
        (along(nn * UNIT - oo, dd) - UNIT) * abs(d) <= along(n * UNIT - o, d) * abs(dd),
    ensures
        along(coord_at(o, d, oo, dd, n * UNIT) - oo, dd) >= along(nn * UNIT - oo, dd) - UNIT,
{
    let a = along(n * UNIT - o, d);
    let b = along(nn * UNIT - oo, dd) - UNIT;
    let big = abs(d);
    let q = (a * dd) / big;
    if dd > 0 {
        let v = a * dd;
        vstd::arithmetic::div_mod::lemma_fundamental_div_mod(v, big);
        let r = v % big;
        assert(q >= b) by (nonlinear_arith)
            requires
                big * q + r == v,
                0 <= r < big,
                b * big <= v,
                big > 0,
        ;
    } else {
        let v = a * abs(dd);
        assert(a * dd == -v) by (nonlinear_arith)
            requires
                v == a * abs(dd),
                abs(dd) == -dd,
        ;
        vstd::arithmetic::div_mod::lemma_fundamental_div_mod(-v, big);
        let r = (-v) % big;
        assert(-q >= b) by (nonlinear_arith)
            requires
                big * q + r == -v,
                0 <= r < big,
                b * big <= v,
                big > 0,
        ;
    }
}

/// At the origin of its ray a cursor keeps the lines.
pub proof fn lemma_start_keeps_lines(r: RayModel)
    requires
        r.valid(),
    ensures
        lines_kept(CursorModel::start(r)),
{
    let c = CursorModel::start(r);
    if r.dx != 0 && r.dy != 0 {
        assert((c.ahead_y() - UNIT) * abs(r.dx) <= c.ahead_x() * abs(r.dy)) by (nonlinear_arith)
            requires
                c.ahead_y() - UNIT <= 0,
                0 < c.ahead_x(),
                abs(r.dx) > 0,
                abs(r.dy) > 0,
        ;
        assert((c.ahead_x() - UNIT) * abs(r.dy) <= c.ahead_y() * abs(r.dx)) by (nonlinear_arith)
            requires
                c.ahead_x() - UNIT <= 0,
                0 < c.ahead_y(),
                abs(r.dx) > 0,
                abs(r.dy) > 0,
        ;
    }
}

/// A step keeps the lines.
pub proof fn lemma_step_keeps_lines(c: CursorModel)
    requires
        c.ray.valid(),
        lines_kept(c),
    ensures
        lines_kept(c.step()),
{
    let r = c.ray;
    let n = c.step();
    let ax = c.ahead_x();
    let ay = c.ahead_y();
    if c.x_first() {
        lemma_cross_within(r.ox, r.dx, r.oy, r.dy, c.nx, c.ny);
        assert(n.ahead_x() == ax + UNIT);
        if r.dy != 0 {
            lemma_cross_past(r.ox, r.dx, r.oy, r.dy, c.nx, c.ny);
            assert((ay - UNIT) * abs(r.dx) <= (ax + UNIT) * abs(r.dy)) by (nonlinear_arith)
                requires
                    (ay - UNIT) * abs(r.dx) <= ax * abs(r.dy),
                    abs(r.dy) >= 0,
                    UNIT > 0,
            ;
        }
    } else if c.y_first() {
        lemma_cross_within(r.oy, r.dy, r.ox, r.dx, c.ny, c.nx);
        assert(n.ahead_y() == ay + UNIT);
        if r.dx != 0 {
            lemma_cross_past(r.oy, r.dy, r.ox, r.dx, c.ny, c.nx);
            assert((ax - UNIT) * abs(r.dy) <= (ay + UNIT) * abs(r.dx)) by (nonlinear_arith)
                requires
                    (ax - UNIT) * abs(r.dy) <= ay * abs(r.dx),
                    abs(r.dx) >= 0,
                    UNIT > 0,
            ;
        }
    } else {
        assert(r.dx != 0 && r.dy != 0);
        assert(ax * abs(r.dy) == ay * abs(r.dx));
        assert(n.ahead_x() == ax + UNIT);
        assert(n.ahead_y() == ay + UNIT);
        assert(ay * abs(r.dx) <= (ax + UNIT) * abs(r.dy)) by (nonlinear_arith)
            requires
                ax * abs(r.dy) == ay * abs(r.dx),
                abs(r.dy) >= 0,
                UNIT > 0,
        ;
        assert(ax * abs(r.dy) <= (ay + UNIT) * abs(r.dx)) by (nonlinear_arith)
            requires
                ax * abs(r.dy) == ay * abs(r.dx),
                abs(r.dx) >= 0,
                UNIT > 0,
        ;
    }
}

/// However many steps a cursor takes from the origin of its ray, it keeps
/// the lines: it leaves out no crossing.
pub proof fn lemma_walk_keeps_lines(r: RayModel, k: nat)
    requires
        r.valid(),
    ensures
        lines_kept(CursorModel::start(r).steps(k)),
        CursorModel::start(r).steps(k).ray == r,
    decreases k,
{
    if k == 0 {
        lemma_start_keeps_lines(r);
    } else {
        lemma_walk_keeps_lines(r, (k - 1) as nat);
        lemma_step_keeps_lines(CursorModel::start(r).steps((k - 1) as nat));
    }
}

/// A well-formed cursor keeps the lines.
pub proof fn lemma_walked_keeps_lines(c: RayCursor)
    requires
        c.wf(),
    ensures
        lines_kept(c@),
{
    let k = choose|k: nat| c.walked(k);
    lemma_walk_keeps_lines(c.ray@, k);
}

} // verus!
