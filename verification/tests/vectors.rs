use raycaster::utils::conventions::{swivelDir_t, xDir_t, yDir_t, HALF_UNIT, TEXTURE_PITCH, UNIT};
use raycaster::utils::misc_math::{Abs, Along, FloorDiv, FloorDivWide, FloorSqrt, GetDecimal, IsInteger};
use raycaster::utils::vec2d::{iPoint2, iVec2, Dot, Point2, TileOf, Vec2};

fn fx(v: f64) -> i64 {
    (v * 65536.0).round() as i64
}

#[test]
fn unit_stands_for_one() {
    assert_eq!(UNIT, 65536);
    assert_eq!(HALF_UNIT * 2, UNIT);
    assert_eq!(TEXTURE_PITCH, 64);
    assert_eq!(fx(1.0), UNIT);
}

#[test]
fn vector_holds_what_it_was_given() {
    let mut v = iVec2::New(3, -4);
    assert_eq!(v.x(), 3);
    assert_eq!(v.y(), -4);
    v.SetX(7);
    assert_eq!(v.x(), 7);
    assert_eq!(v.y(), -4);
    v.SetY(9);
    assert_eq!(v.x(), 7);
    assert_eq!(v.y(), 9);
}

#[test]
fn vectors_add_subtract_and_negate_by_component() {
    let a = iVec2::New(1, 2);
    let b = iVec2::New(10, 20);
    let sum = a + b;
    assert_eq!((sum.x, sum.y), (11, 22));
    let diff = a - b;
    assert_eq!((diff.x, diff.y), (-9, -18));
    let neg = -a;
    assert_eq!((neg.x, neg.y), (-1, -2));
    assert!(a + b == iVec2::New(11, 22));
    assert!(a != b);
}

#[test]
fn fixed_point_vectors_compare_by_component() {
    assert!(Vec2::New(5, 6) == Vec2::New(5, 6));
    assert!(Vec2::New(5, 6) != Vec2::New(5, 7));
}

#[test]
fn length_of_a_three_four_five_triangle() {
    let v = Vec2::New(fx(3.0), fx(4.0));
    assert_eq!(v.Length(), fx(5.0));
    assert_eq!(v.LengthSquared(), fx(25.0));
}

#[test]
fn length_is_rounded_down() {
    // The diagonal of a tile is 92681.9 subunits long.
    assert_eq!(Vec2::New(UNIT, UNIT).Length(), 92681);
    assert_eq!(Vec2::New(0, 0).Length(), 0);
    assert_eq!(Vec2::New(-7, 0).Length(), 7);
}

#[test]
fn unit_vector_has_unit_length() {
    let u = Vec2::New(fx(3.0), fx(4.0)).UnitVector();
    assert_eq!((u.x, u.y), (39321, 52428));
    // 0.70710678 of a tile is 46340.9 subunits.
    let d = Vec2::New(UNIT, UNIT).UnitVector();
    assert_eq!((d.x, d.y), (46340, 46340));
    let w = Vec2::New(-UNIT, 0).UnitVector();
    assert_eq!((w.x, w.y), (-UNIT, 0));
}

#[test]
fn unit_vector_of_a_short_or_long_vector_has_unit_length_too() {
    let short = Vec2::New(1, 1).UnitVector();
    assert_eq!((short.x, short.y), (46340, 46340));
    let skew = Vec2::New(1, -2).UnitVector();
    assert_eq!((skew.x, skew.y), (29308, -58617));
    let long = Vec2::New(2147483648, -2147483648).UnitVector();
    assert_eq!((long.x, long.y), (46340, -46340));
    let flat = Vec2::New(2147483648, 1).UnitVector();
    assert_eq!((flat.x, flat.y), (65535, 0));
    let axis = Vec2::New(0, 5).UnitVector();
    assert_eq!((axis.x, axis.y), (0, UNIT));
}

#[test]
fn unit_vector_is_short_of_unit_length_by_less_than_a_subunit_each_way() {
    let vectors: [(i64, i64); 7] =
        [(1, 1), (3, -4), (-70000, 12), (65536, 65535), (-1, 2147483648), (123456789, -987654321), (7, 0)];
    for (x, y) in vectors {
        let u = Vec2::New(x, y).UnitVector();
        assert!(u.x * u.x + u.y * u.y <= UNIT * UNIT);
        let (ax, ay) = (u.x.abs() + 1, u.y.abs() + 1);
        assert!(ax * ax + ay * ay > UNIT * UNIT);
        assert!(u.x * x >= 0 && u.y * y >= 0);
    }
}

#[test]
fn unit_vector_rounds_toward_zero_both_ways() {
    let u = Vec2::New(fx(-3.0), fx(-4.0)).UnitVector();
    assert_eq!((u.x, u.y), (-39321, -52428));
}

#[test]
fn quarter_turn_swaps_the_axes() {
    // cos 90 = 0, sin 90 = 1: east becomes north.
    let v = Vec2::New(UNIT, 0).Rotate(0, UNIT);
    assert_eq!((v.x, v.y), (0, UNIT));
    // A clockwise quarter turn takes north to east.
    let w = Vec2::New(0, UNIT).Rotate(0, -UNIT);
    assert_eq!((w.x, w.y), (UNIT, 0));
}

#[test]
fn rotation_by_no_angle_changes_nothing() {
    let v = Vec2::New(12345, -6789).Rotate(UNIT, 0);
    assert_eq!((v.x, v.y), (12345, -6789));
}

#[test]
fn rotation_rounds_each_component_down() {
    // cos 45 = sin 45 = 0.70710678 -> 46341 subunits.
    let v = Vec2::New(UNIT, 0).Rotate(46341, 46341);
    assert_eq!((v.x, v.y), (46341, 46341));
    let w = Vec2::New(3, 0).Rotate(-1, 0);
    // 3 * -1 / 65536 rounded down is -1.
    assert_eq!(w.x, -1);
}

#[test]
fn dot_product_is_a_fixed_point_number() {
    let a = Vec2::New(fx(2.0), fx(3.0));
    let b = Vec2::New(fx(4.0), fx(-1.0));
    assert_eq!(Dot(a, b), fx(5.0));
    assert_eq!(Dot(Vec2::New(1, 0), Vec2::New(-1, 0)), -1);
    assert_eq!(Dot(Vec2::New(UNIT, 0), Vec2::New(0, UNIT)), 0);
}

#[test]
fn scaling_by_a_fixed_point_factor() {
    let v = Vec2::New(fx(2.0), fx(-3.0)) * fx(0.5);
    assert_eq!((v.x, v.y), (fx(1.0), fx(-1.5)));
    let w = Vec2::New(1, -1) * 1;
    assert_eq!((w.x, w.y), (0, -1));
}

#[test]
fn a_point_lies_in_the_tile_of_its_whole_part() {
    let t = iPoint2::from(Point2::New(fx(3.7), fx(0.2)));
    assert_eq!((t.x, t.y), (3, 0));
    let edge = iPoint2::from(Point2::New(fx(2.0), fx(5.0)));
    assert_eq!((edge.x, edge.y), (2, 5));
    assert_eq!(TileOf(UNIT - 1), 0);
    assert_eq!(TileOf(UNIT), 1);
}

#[test]
fn tile_of_a_negative_coordinate_rounds_toward_zero() {
    assert_eq!(TileOf(-1), 0);
    assert_eq!(TileOf(-UNIT), -1);
    assert_eq!(TileOf(-UNIT - 1), -1);
    assert_eq!(TileOf(i64::MAX), i32::MAX);
    assert_eq!(TileOf(i64::MIN), i32::MIN);
}

#[test]
fn a_tile_becomes_the_point_of_its_corner() {
    let p = Point2::from(iPoint2::New(3, -2));
    assert_eq!((p.x, p.y), (3 * UNIT, -2 * UNIT));
}

#[test]
fn decimal_is_what_is_left_of_the_magnitude() {
    assert_eq!(GetDecimal(fx(3.25)), fx(0.25));
    assert_eq!(GetDecimal(fx(-3.25)), fx(0.25));
    assert_eq!(GetDecimal(fx(7.0)), 0);
    assert_eq!(GetDecimal(0), 0);
    assert_eq!(GetDecimal(i64::MIN), 0);
    assert_eq!(GetDecimal(i64::MAX), UNIT - 1);
}

#[test]
fn whole_numbers_are_integers() {
    assert!(IsInteger(fx(4.0)));
    assert!(IsInteger(fx(-4.0)));
    assert!(IsInteger(0));
    assert!(!IsInteger(fx(4.5)));
    assert!(!IsInteger(1));
}

#[test]
fn floor_division_rounds_down() {
    assert_eq!(FloorDiv(7, 2), 3);
    assert_eq!(FloorDiv(-7, 2), -4);
    assert_eq!(FloorDiv(-8, 2), -4);
    assert_eq!(FloorDiv(0, 5), 0);
    assert_eq!(FloorDiv(-1, 65536), -1);
    assert_eq!(FloorDiv(i64::MIN, 1), i64::MIN);
    assert_eq!(FloorDiv(i64::MIN, 2), i64::MIN / 2);
    assert_eq!(FloorDiv(i64::MIN, 3), -3074457345618258603);
    assert_eq!(FloorDiv(i64::MIN, i64::MAX), -2);
    assert_eq!(FloorDivWide(-7, 2), -4);
    assert_eq!(FloorDivWide(7, 2), 3);
    assert_eq!(FloorDivWide(-6, 3), -2);
}

#[test]
fn square_root_is_rounded_down() {
    assert_eq!(FloorSqrt(0), 0);
    assert_eq!(FloorSqrt(1), 1);
    assert_eq!(FloorSqrt(3), 1);
    assert_eq!(FloorSqrt(4), 2);
    assert_eq!(FloorSqrt(99), 9);
    assert_eq!(FloorSqrt(100), 10);
    assert_eq!(FloorSqrt(u64::MAX), 4294967295);
    assert_eq!(FloorSqrt(65536 * 65536), 65536);
}

#[test]
fn magnitude_and_sense() {
    assert_eq!(Abs(-5), 5);
    assert_eq!(Abs(5), 5);
    assert_eq!(Along(5, 3), 5);
    assert_eq!(Along(5, -3), -5);
    assert_eq!(Along(5, 0), 0);
}

#[test]
fn directions_have_signs() {
    assert_eq!(xDir_t::EAST.Sign(), 1);
    assert_eq!(xDir_t::WEST.Sign(), -1);
    assert_eq!(xDir_t::NONE.Sign(), 0);
    assert_eq!(yDir_t::NORTH.Sign(), 1);
    assert_eq!(yDir_t::SOUTH.Sign(), -1);
    assert_eq!(yDir_t::NONE.Sign(), 0);
    assert_eq!(swivelDir_t::COUNTER_CLOCKWISE.Sign(), 1);
    assert_eq!(swivelDir_t::CLOCKWISE.Sign(), -1);
    assert_eq!(swivelDir_t::NONE.Sign(), 0);
    assert_eq!(xDir_t::Of(17), xDir_t::EAST);
    assert_eq!(xDir_t::Of(-17), xDir_t::WEST);
    assert_eq!(xDir_t::Of(0), xDir_t::NONE);
    assert_eq!(yDir_t::Of(1), yDir_t::NORTH);
    assert_eq!(yDir_t::Of(-1), yDir_t::SOUTH);
    assert_eq!(yDir_t::Of(0), yDir_t::NONE);
    assert_eq!(xDir_t::default(), xDir_t::NONE);
    assert_eq!(yDir_t::default(), yDir_t::NONE);
    assert_eq!(swivelDir_t::default(), swivelDir_t::NONE);
}
