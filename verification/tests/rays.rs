use raycaster::utils::conventions::{xDir_t, yDir_t, HALF_UNIT, UNIT};
use raycaster::utils::dda::{wallType_t, RayCursor, NO_WIDTH};
use raycaster::utils::ray::{CoordAt, DistAlong, NextLine, Ray};
use raycaster::utils::vec2d::{Point2, Vec2};

fn fx(v: f64) -> i64 {
    (v * 65536.0).round() as i64
}

fn cursor(ox: f64, oy: f64, dx: f64, dy: f64) -> RayCursor {
    let origin = Point2::New(fx(ox), fx(oy));
    RayCursor::New(Ray::New(origin, Vec2::New(fx(dx), fx(dy))), origin)
}

#[test]
fn a_ray_knows_its_senses_and_keeps_what_it_was_given() {
    let ray = Ray::New(Point2::New(fx(1.5), fx(2.5)), Vec2::New(fx(3.0), fx(-4.0)));
    assert_eq!(ray.xDir, xDir_t::EAST);
    assert_eq!(ray.yDir, yDir_t::SOUTH);
    assert_eq!((ray.xDirVec.x, ray.xDirVec.y), (1, 0));
    assert_eq!((ray.yDirVec.x, ray.yDirVec.y), (0, -1));
    assert_eq!((ray.origin.x, ray.origin.y), (fx(1.5), fx(2.5)));
    // The direction has unit length; the course is what was given.
    assert_eq!((ray.direction.x, ray.direction.y), (39321, -52428));
    assert_eq!((ray.course.x, ray.course.y), (fx(3.0), fx(-4.0)));
    let long = Ray::New(Point2::New(0, 0), Vec2::New(fx(2.0), 0));
    assert_eq!((long.direction.x, long.direction.y), (UNIT, 0));
    assert_eq!((long.course.x, long.course.y), (fx(2.0), 0));
}

#[test]
fn a_ray_has_the_senses_of_the_direction_it_was_given() {
    // Sixteen tiles are the most that a walk can follow.
    let edge = Ray::New(Point2::New(0, 0), Vec2::New(fx(16.0), fx(-16.0)));
    assert_eq!((edge.course.x, edge.course.y), (fx(16.0), fx(-16.0)));
    assert_eq!((edge.direction.x, edge.direction.y), (46340, -46340));
    // A component that is small beside the other still gives its sense,
    // though it leaves nothing in the direction of unit length.
    let steep = Ray::New(Point2::New(fx(0.5), fx(0.5)), Vec2::New(1, 1048576));
    assert_eq!((steep.xDir, steep.yDir), (xDir_t::EAST, yDir_t::NORTH));
    assert_eq!((steep.xDirVec.x, steep.yDirVec.y), (1, 1));
    assert_eq!((steep.direction.x, steep.direction.y), (0, 65535));
    assert_eq!((steep.course.x, steep.course.y), (1, 1048576));
    let west = Ray::New(Point2::New(fx(0.5), fx(0.5)), Vec2::New(-1, -1048576));
    assert_eq!((west.xDir, west.yDir), (xDir_t::WEST, yDir_t::SOUTH));
    // Such a ray comes to a vertical grid line in the end.
    let mut c = RayCursor::New(steep, Point2::New(fx(0.5), fx(0.5)));
    c.GoToNextHit();
    assert_eq!((c.hitTile.x, c.hitTile.y), (0, 1));
    assert_eq!((c.nextLine.x, c.nextLine.y), (1, 2));
}

#[test]
fn a_ray_along_an_axis_has_no_sense_on_the_other() {
    let ray = Ray::New(Point2::New(0, 0), Vec2::New(0, -5));
    assert_eq!(ray.xDir, xDir_t::NONE);
    assert_eq!(ray.yDir, yDir_t::SOUTH);
    assert_eq!((ray.xDirVec.x, ray.xDirVec.y), (0, 0));
}

#[test]
fn next_line_is_the_ceiling_or_the_floor() {
    assert_eq!(NextLine(fx(2.3), 1), 3);
    assert_eq!(NextLine(fx(2.3), -1), 2);
    assert_eq!(NextLine(fx(-2.3), 1), -2);
    assert_eq!(NextLine(fx(-2.3), -1), -3);
}

#[test]
fn next_line_from_a_line_is_a_full_tile_further() {
    assert_eq!(NextLine(fx(2.0), 1), 3);
    assert_eq!(NextLine(fx(2.0), -1), 1);
    assert_eq!(NextLine(0, -1), -1);
    assert_eq!(NextLine(0, 1), 1);
}

#[test]
fn next_intersections_lie_on_the_ray() {
    let ray = Ray::New(Point2::New(fx(0.5), fx(0.5)), Vec2::New(fx(2.0), fx(1.0)));
    let nx = ray.NextXIntrscPoint(Point2::New(fx(0.5), fx(0.5))).unwrap();
    assert_eq!((nx.x, nx.y), (fx(1.0), fx(0.75)));
    let ny = ray.NextYIntrscPoint(Point2::New(fx(0.5), fx(0.5))).unwrap();
    assert_eq!((ny.x, ny.y), (fx(1.5), fx(1.0)));
    assert_eq!(ray.yAt(fx(2.5)), fx(1.5));
    assert_eq!(ray.xAt(fx(1.5)), fx(2.5));
}

#[test]
fn a_ray_that_does_not_move_along_an_axis_crosses_no_line_of_it() {
    let ray = Ray::New(Point2::New(fx(0.5), fx(0.5)), Vec2::New(fx(1.0), 0));
    assert!(ray.NextYIntrscPoint(Point2::New(fx(0.5), fx(0.5))).is_none());
    assert!(ray.NextXIntrscPoint(Point2::New(fx(0.5), fx(0.5))).is_some());
    let up = Ray::New(Point2::New(fx(0.5), fx(0.5)), Vec2::New(0, fx(1.0)));
    assert!(up.NextXIntrscPoint(Point2::New(fx(0.5), fx(0.5))).is_none());
}

#[test]
fn intersection_going_west_and_south() {
    let ray = Ray::New(Point2::New(fx(2.5), fx(2.5)), Vec2::New(fx(-1.0), fx(-2.0)));
    let nx = ray.NextXIntrscPoint(Point2::New(fx(2.5), fx(2.5))).unwrap();
    assert_eq!((nx.x, nx.y), (fx(2.0), fx(1.5)));
    let ny = ray.NextYIntrscPoint(Point2::New(fx(2.5), fx(2.5))).unwrap();
    assert_eq!((ny.x, ny.y), (fx(2.25), fx(2.0)));
}

#[test]
fn coordinates_on_a_ray_are_rounded_down() {
    // From (0,0) along (3,1): at x = 1 subunit, y is a third of a subunit.
    assert_eq!(CoordAt(0, 3, 0, 1, 1), 0);
    assert_eq!(CoordAt(0, 3, 0, -1, 1), -1);
    assert_eq!(CoordAt(0, -3, 0, 1, -1), 0);
    assert_eq!(CoordAt(0, -3, 0, -1, -1), -1);
    assert_eq!(CoordAt(0, 3, 0, 1, 3), 1);
}

#[test]
fn distance_to_a_point_of_the_ray() {
    let ray = Ray::New(Point2::New(fx(1.0), fx(1.0)), Vec2::New(fx(3.0), fx(4.0)));
    // The ray covers more ground along y, so y measures the distance.
    assert_eq!(ray.DistToPoint(Point2::New(fx(4.0), fx(5.0))), fx(5.0));
    assert_eq!(ray.DistToPoint(Point2::New(fx(1.0), fx(1.0))), 0);
    let flat = Ray::New(Point2::New(fx(1.0), fx(1.0)), Vec2::New(fx(-2.0), 0));
    assert_eq!(flat.DistToPoint(Point2::New(fx(-2.5), fx(1.0))), fx(3.5));
    // Twice the direction (4, 3), which is 5 long.
    assert_eq!(DistAlong(0, 4, 3, 8), 10);
    assert_eq!(DistAlong(0, -4, 3, -8), 10);
    // A third of the direction (3, 4): 1.67 rounded down.
    assert_eq!(DistAlong(0, 3, 4, 1), 1);
}

#[test]
fn distance_does_not_depend_on_the_length_of_the_direction() {
    // The diagonal of a tile is 92681.9 subunits long.
    for d in [1i64, 2, 1000, UNIT, 1048576] {
        assert_eq!(DistAlong(0, d, d, UNIT), 92681);
        assert_eq!(DistAlong(0, -d, d, -UNIT), 92681);
        let ray = Ray::New(Point2::New(0, 0), Vec2::New(d, -d));
        assert_eq!(ray.DistToPoint(Point2::New(UNIT, -UNIT)), 92681);
    }
    let short = Ray::New(Point2::New(fx(0.5), fx(0.5)), Vec2::New(1, 0));
    assert_eq!(short.DistToPoint(Point2::New(fx(2.0), fx(0.5))), fx(1.5));
}

#[test]
fn a_new_cursor_stands_at_the_point_it_was_given() {
    let c = cursor(2.25, 3.75, 1.0, 1.0);
    assert_eq!((c.hitTile.x, c.hitTile.y), (2, 3));
    assert_eq!((c.hitPoint.x, c.hitPoint.y), (fx(2.25), fx(3.75)));
    assert_eq!((c.nextLine.x, c.nextLine.y), (3, 4));
    assert!(c.wallHit.is_none());
    assert_eq!(c.GetDistToHitPoint(), 0);
    assert!(c.CanAdvance());
}

#[test]
fn cursor_goes_to_the_nearer_crossing() {
    let mut c = cursor(0.5, 0.5, 2.0, 1.0);
    c.GoToNextHit();
    // x = 1 comes at a quarter of the way, y = 1 at half of it.
    assert_eq!((c.hitTile.x, c.hitTile.y), (1, 0));
    assert_eq!((c.hitPoint.x, c.hitPoint.y), (fx(1.0), fx(0.75)));
    c.GoToNextHit();
    assert_eq!((c.hitTile.x, c.hitTile.y), (1, 1));
    assert_eq!((c.hitPoint.x, c.hitPoint.y), (fx(1.5), fx(1.0)));
    c.GoToNextHit();
    assert_eq!((c.hitTile.x, c.hitTile.y), (2, 1));
    assert_eq!((c.hitPoint.x, c.hitPoint.y), (fx(2.0), fx(1.25)));
}

#[test]
fn cursor_goes_diagonally_through_a_corner() {
    let mut c = cursor(0.5, 0.5, 1.0, 1.0);
    c.GoToNextHit();
    assert_eq!((c.hitTile.x, c.hitTile.y), (1, 1));
    assert_eq!((c.hitPoint.x, c.hitPoint.y), (fx(1.0), fx(1.0)));
    assert_eq!(c.GetWallType(), wallType_t::CORNER);
    assert_eq!(c.GetWidthPercent(), 0);
    c.GoToNextHit();
    assert_eq!((c.hitTile.x, c.hitTile.y), (2, 2));
}

#[test]
fn cursor_goes_diagonally_through_a_corner_south_west() {
    let mut c = cursor(2.5, 2.5, -1.0, -1.0);
    c.GoToNextHit();
    assert_eq!((c.hitTile.x, c.hitTile.y), (1, 1));
    assert_eq!((c.hitPoint.x, c.hitPoint.y), (fx(2.0), fx(2.0)));
    c.GoToNextHit();
    assert_eq!((c.hitTile.x, c.hitTile.y), (0, 0));
    assert_eq!((c.hitPoint.x, c.hitPoint.y), (fx(1.0), fx(1.0)));
}

#[test]
fn corner_is_found_for_a_direction_that_floats_would_miss() {
    // From (0.1, 0.3) along (0.9, 0.7) the ray runs exactly into (1, 1).
    let origin = Point2::New(6554, 19661);
    let ray = Ray::New(origin, Vec2::New(UNIT - 6554, UNIT - 19661));
    let mut c = RayCursor::New(ray, origin);
    c.GoToNextHit();
    assert_eq!((c.hitTile.x, c.hitTile.y), (1, 1));
    assert_eq!((c.hitPoint.x, c.hitPoint.y), (UNIT, UNIT));
}

#[test]
fn cursor_on_a_line_going_west_crosses_the_line_a_tile_further() {
    let mut c = cursor(3.0, 0.5, -1.0, 0.0);
    assert_eq!((c.hitTile.x, c.hitTile.y), (3, 0));
    c.GoToNextHit();
    assert_eq!((c.hitPoint.x, c.hitPoint.y), (fx(2.0), fx(0.5)));
    assert_eq!((c.hitTile.x, c.hitTile.y), (2, 0));
    assert_eq!(c.GetDistToHitPoint(), fx(1.0));
}

#[test]
fn cursor_along_an_axis_never_changes_row() {
    let mut c = cursor(0.5, 0.5, 0.0, -3.0);
    for step in 1..6 {
        c.GoToNextHit();
        assert_eq!((c.hitTile.x, c.hitTile.y), (0, -step));
        assert_eq!(c.hitPoint.x, fx(0.5));
    }
}

#[test]
fn get_next_hit_leaves_the_cursor_where_it_was() {
    let c = cursor(0.5, 0.5, 1.0, 0.0);
    let n = c.GetNextHit();
    assert_eq!((c.hitTile.x, c.hitTile.y), (0, 0));
    assert_eq!((n.hitTile.x, n.hitTile.y), (1, 0));
}

#[test]
fn faces_are_told_apart_by_the_hit_point() {
    let mut inside = cursor(0.3, 0.3, 2.0, 1.0);
    assert_eq!(inside.GetWallType(), wallType_t::NONE);
    assert_eq!(inside.GetWidthPercent(), NO_WIDTH);
    let mut c = cursor(0.5, 0.5, 2.0, 1.0);
    c.GoToNextHit();
    assert_eq!(c.GetWallType(), wallType_t::VERTICAL);
    assert_eq!(c.GetWidthPercent(), fx(0.75));
    c.GoToNextHit();
    assert_eq!(c.GetWallType(), wallType_t::HORIZONTAL);
    assert_eq!(c.GetWidthPercent(), fx(0.5));
}

#[test]
fn what_the_cursor_remembers_is_dropped_by_a_step() {
    let mut c = cursor(0.5, 0.5, 2.0, 1.0);
    c.GoToNextHit();
    assert!(c.wallHit.is_none());
    assert_eq!(c.GetWallType(), wallType_t::VERTICAL);
    assert!(c.wallHit.is_some());
    c.GoToNextHit();
    assert!(c.wallHit.is_none());
    assert_eq!(c.GetWallType(), wallType_t::HORIZONTAL);
}

#[test]
fn tiles_are_never_revisited_and_distance_never_decreases() {
    let directions: [(i64, i64); 10] = [
        (65536, 0),
        (0, 65536),
        (-65536, 0),
        (0, -65536),
        (46341, 46341),
        (60547, 25080),
        (-25080, 60547),
        (-1, -65536),
        (65536, 1),
        (3, -7),
    ];
    for (dx, dy) in directions {
        let origin = Point2::New(fx(40.3), fx(40.7));
        let mut c = RayCursor::New(Ray::New(origin, Vec2::New(dx, dy)), origin);
        let mut seen: Vec<(i32, i32)> = vec![(c.hitTile.x, c.hitTile.y)];
        let mut last = c.GetDistToHitPoint();
        for _ in 0..40 {
            c.GoToNextHit();
            let tile = (c.hitTile.x, c.hitTile.y);
            assert!(!seen.contains(&tile));
            seen.push(tile);
            let dist = c.GetDistToHitPoint();
            assert!(dist >= last);
            last = dist;
        }
    }
}

#[test]
fn a_walk_leaves_out_no_grid_line() {
    let directions: [(i64, i64); 8] =
        [(65536, 3), (-7, 65536), (46341, -46341), (-60547, -25080), (1, 1048576), (-1048576, 1), (5, 0), (0, -9)];
    for origin in [Point2::New(fx(40.3), fx(40.7)), Point2::New(fx(3.0), fx(2.0)), Point2::New(fx(-2.5), fx(-0.25))] {
        for (dx, dy) in directions {
            let mut c = RayCursor::New(Ray::New(origin, Vec2::New(dx, dy)), origin);
            let apart = (c.nextLine.x - c.hitTile.x, c.nextLine.y - c.hitTile.y);
            for _ in 0..60 {
                let before = c;
                c.GoToNextHit();
                // Each next line is ahead of the hit point, a tile at the most.
                let leadX = (c.nextLine.x as i64 * UNIT - c.hitPoint.x) * dx.signum();
                let leadY = (c.nextLine.y as i64 * UNIT - c.hitPoint.y) * dy.signum();
                assert!(0 <= leadX && leadX <= UNIT);
                assert!(0 <= leadY && leadY <= UNIT);
                // The tile moves with the lines, one step in the sense of travel.
                assert_eq!((c.nextLine.x - c.hitTile.x, c.nextLine.y - c.hitTile.y), apart);
                let step = (c.hitTile.x - before.hitTile.x, c.hitTile.y - before.hitTile.y);
                let (sx, sy) = (dx.signum() as i32, dy.signum() as i32);
                assert!(step == (sx, 0) || step == (0, sy) || step == (sx, sy));
                // The hit point lies on the line that was crossed.
                assert!(c.hitPoint.x % UNIT == 0 || c.hitPoint.y % UNIT == 0);
            }
        }
    }
}

#[test]
fn a_cursor_on_the_rim_cannot_advance() {
    let mut c = cursor(16383.5, 0.5, 1.0, 0.0);
    let mut steps = 0;
    while c.CanAdvance() {
        c.GoToNextHit();
        steps += 1;
    }
    assert_eq!(c.hitTile.x, 32768);
    assert_eq!(steps, 16385);
}

#[test]
fn center_of_a_tile_entered_from_the_west() {
    let mut c = cursor(0.5, 0.5, 2.0, 1.0);
    c.GoToNextHit();
    // The ray is at (1.5, 1.0) in the middle: on the upper edge of the
    // tile, that is in the next.
    assert_eq!((c.hitTile.x, c.hitTile.y), (1, 0));
    let above = c.GetNextCenterHit();
    assert_eq!((above.hitPoint.x, above.hitPoint.y), (fx(1.5), fx(1.0)));
    assert_eq!((above.hitTile.x, above.hitTile.y), (1, 1));
    let mut flat = cursor(0.5, 0.25, 4.0, 1.0);
    flat.GoToNextHit();
    assert!(flat.CrossesCenter());
    let mut center = flat.GetNextCenterHit();
    assert_eq!((center.hitTile.x, center.hitTile.y), (1, 0));
    assert_eq!((center.hitPoint.x, center.hitPoint.y), (fx(1.5), fx(0.5)));
    assert_eq!((center.nextLine.x, center.nextLine.y), (2, 1));
    assert_eq!(center.GetWallType(), wallType_t::VERTICAL);
    assert_eq!(center.GetWidthPercent(), HALF_UNIT);
    assert_eq!(center.GetDistToHitPoint(), 67552);
}

#[test]
fn a_ray_that_leaves_through_a_side_comes_to_the_centerline_in_another_tile() {
    let mut c = cursor(0.5, 0.5, 1.0, 2.0);
    c.GoToNextHit();
    // Entered (0, 1) from below at x = 0.75; y = 1.5 comes at x = 1.0,
    // which is the edge of the next tile.
    assert_eq!((c.hitTile.x, c.hitTile.y), (0, 1));
    let side = c.GetNextCenterHit();
    assert_eq!((side.hitPoint.x, side.hitPoint.y), (fx(1.0), fx(1.5)));
    assert_eq!((side.hitTile.x, side.hitTile.y), (1, 1));
    let mut steep = cursor(0.9, 0.5, 1.0, 8.0);
    steep.GoToNextHit();
    steep.GoToNextHit();
    // Entered (1, 1) from the west at y = 1.3: the middle at x = 1.5 is
    // reached at y = 5.3.
    assert_eq!((steep.hitTile.x, steep.hitTile.y), (1, 1));
    let far = steep.GetNextCenterHit();
    assert_eq!((far.hitPoint.x, far.hitPoint.y), (fx(1.5), 347344));
    assert_eq!((far.hitTile.x, far.hitTile.y), (1, 5));
    assert_eq!(far.ray.course, steep.ray.course);
}

#[test]
fn go_to_center_always_moves_half_a_tile_on() {
    let mut c = cursor(0.5, 0.25, 4.0, 1.0);
    c.GoToNextHit();
    c.GoToNextCenterHit();
    assert_eq!((c.hitPoint.x, c.hitPoint.y), (fx(1.5), fx(0.5)));
    assert_eq!((c.hitTile.x, c.hitTile.y), (1, 0));
    let mut d = cursor(0.5, 0.5, 1.0, 2.0);
    d.GoToNextHit();
    assert_eq!((d.hitPoint.x, d.hitPoint.y), (fx(0.75), fx(1.0)));
    d.GoToNextCenterHit();
    assert_eq!((d.hitPoint.x, d.hitPoint.y), (fx(1.0), fx(1.5)));
    assert_eq!((d.hitTile.x, d.hitTile.y), (1, 1));
    assert_eq!(d.GetWallType(), wallType_t::VERTICAL);
    // Westward and downward the half tile is taken off.
    let mut w = cursor(2.5, 2.5, -4.0, -1.0);
    w.GoToNextHit();
    assert_eq!((w.hitPoint.x, w.hitPoint.y), (fx(2.0), fx(2.375)));
    w.GoToNextCenterHit();
    assert_eq!((w.hitPoint.x, w.hitPoint.y), (fx(1.5), fx(2.25)));
    assert_eq!((w.hitTile.x, w.hitTile.y), (1, 2));
}

#[test]
fn center_of_a_tile_entered_from_above_going_south_west() {
    let mut c = cursor(2.75, 2.5, -1.0, -4.0);
    c.GoToNextHit();
    assert_eq!((c.hitTile.x, c.hitTile.y), (2, 1));
    assert_eq!((c.hitPoint.x, c.hitPoint.y), (fx(2.625), fx(2.0)));
    let center = c.GetNextCenterHit();
    assert_eq!((center.hitPoint.x, center.hitPoint.y), (fx(2.5), fx(1.5)));
    assert_eq!((center.hitTile.x, center.hitTile.y), (2, 1));
}

#[test]
fn a_ray_along_a_grid_line_does_not_cross_it() {
    let mut c = cursor(0.5, 1.0, 1.0, 0.0);
    c.GoToNextHit();
    assert_eq!(c.GetWallType(), wallType_t::CORNER);
    assert!(!c.CrossesCenter());
    let mut up = cursor(1.0, 0.5, 0.0, 1.0);
    up.GoToNextHit();
    assert_eq!(up.GetWallType(), wallType_t::CORNER);
    assert!(up.CrossesCenter());
    up.GoToNextCenterHit();
    assert_eq!((up.hitPoint.x, up.hitPoint.y), (fx(1.0), fx(1.5)));
}
