use raycaster::multimedia::{LightTexture, Rect, TextureType};
use raycaster::tiles::{
    ColumnRect, Door, DoorPosition, DoorStatus, DoorTimerVal, EmptyTile, IsSolidObject, ObjectTile, Sprite,
    SpriteType, TextureHandle, Tile, Wall, DOOR_CLEARANCE, LEAF_LIT_TEXTURE, LEAF_UNLIT_TEXTURE,
    NO_PASSTHROUGH_ID_LIST,
};
use raycaster::utils::conventions::UNIT;
use raycaster::utils::dda::RayCursor;
use raycaster::utils::ray::Ray;
use raycaster::utils::vec2d::{Point2, Vec2};

fn fx(v: f64) -> i64 {
    (v * 65536.0).round() as i64
}

fn cursor(ox: f64, oy: f64, dx: f64, dy: f64) -> RayCursor {
    let origin = Point2::New(fx(ox), fx(oy));
    RayCursor::New(Ray::New(origin, Vec2::New(fx(dx), fx(dy))), origin)
}

fn object_sprite(id: i32) -> Sprite {
    Sprite {
        spriteType: SpriteType::OBJECT,
        textureHandle: TextureHandle::New(TextureType::OBJECT, id),
        location: Point2::New(fx(1.5), fx(1.5)),
    }
}

#[test]
fn texture_handle_names_a_sheet_and_a_number() {
    let h = TextureHandle::New(TextureType::GUARD, 17);
    assert_eq!(h.textureType, TextureType::GUARD);
    assert_eq!(h.ID, 17);
}

#[test]
fn wall_has_a_lit_and_an_unlit_texture() {
    let wall = Wall::New(7, 8);
    assert_eq!(wall.litTextureHandle, TextureHandle::New(TextureType::WALL, 7));
    assert_eq!(wall.unlitTextureHandle, TextureHandle::New(TextureType::WALL, 8));
    assert!(Wall::PlayerTileHit());
}

#[test]
fn faces_that_run_north_south_are_lit() {
    let lit = TextureHandle::New(TextureType::WALL, 1);
    let unlit = TextureHandle::New(TextureType::WALL, 2);
    let mut vertical = cursor(0.5, 0.5, 2.0, 1.0);
    vertical.GoToNextHit();
    assert_eq!(LightTexture(&mut vertical, lit, unlit), lit);
    vertical.GoToNextHit();
    // Now on a line of constant y.
    assert_eq!(LightTexture(&mut vertical, lit, unlit), unlit);
    let mut corner = cursor(0.5, 0.5, 1.0, 1.0);
    corner.GoToNextHit();
    assert_eq!(LightTexture(&mut corner, lit, unlit), lit);
}

#[test]
fn texture_column_is_the_offset_along_the_face() {
    assert_eq!(ColumnRect(0), Rect::New(0, 0, 1, 64));
    assert_eq!(ColumnRect(fx(0.5)), Rect::New(32, 0, 1, 64));
    assert_eq!(ColumnRect(fx(0.75)), Rect::New(48, 0, 1, 64));
    assert_eq!(ColumnRect(UNIT - 1), Rect::New(63, 0, 1, 64));
    assert_eq!(ColumnRect(1023), Rect::New(0, 0, 1, 64));
    assert_eq!(ColumnRect(1024), Rect::New(1, 0, 1, 64));
}

#[test]
fn wall_answers_every_ray_with_a_slice() {
    let wall = Wall::New(5, 6);
    let mut c = cursor(0.5, 0.5, 2.0, 1.0);
    c.GoToNextHit();
    let slice = wall.GetWallSlice(&mut c);
    assert_eq!(slice.textureHandle, TextureHandle::New(TextureType::WALL, 5));
    assert_eq!(slice.textureRect, Rect::New(48, 0, 1, 64));
    // A quarter of the way along a ray whose direction is 146542 long.
    assert_eq!(slice.dist, 36635);
    let hit = wall.RayTileHit(&mut c);
    assert_eq!(hit, Some(slice));
    c.GoToNextHit();
    let above = wall.RayTileHit(&mut c).unwrap();
    assert_eq!(above.textureHandle, TextureHandle::New(TextureType::WALL, 6));
    assert_eq!(above.textureRect, Rect::New(32, 0, 1, 64));
    assert_eq!(above.dist, 73271);
}

#[test]
fn wall_never_lets_a_ray_pass() {
    let wall = Wall::New(1, 2);
    let tile = Tile::WALL(wall);
    let directions: [(f64, f64); 6] =
        [(1.0, 0.0), (0.0, 1.0), (-1.0, 0.0), (1.0, 1.0), (-3.0, 2.0), (0.1, -1.0)];
    for (dx, dy) in directions {
        let mut c = cursor(5.3, 5.7, dx, dy);
        for _ in 0..5 {
            c.GoToNextHit();
            assert!(wall.RayTileHit(&mut c).is_some());
            assert!(tile.RayTileHit(&mut c).is_some());
        }
    }
}

#[test]
fn empty_tile_never_stops_a_ray_or_a_walker() {
    assert!(EmptyTile::RayTileHit().is_none());
    assert!(!EmptyTile::PlayerTileHit());
    let tile = Tile::EMPTY(EmptyTile::New(None));
    let mut c = cursor(0.5, 0.5, 1.0, 0.0);
    c.GoToNextHit();
    assert!(tile.RayTileHit(&mut c).is_none());
    assert!(!tile.PlayerTileHit());
}

#[test]
fn empty_tile_hands_out_its_sprites_once() {
    let mut tile = EmptyTile::New(None);
    assert!(tile.GetSprites().is_none());
    tile.AddSprite(object_sprite(1));
    tile.AddSprite(object_sprite(2));
    assert_eq!(tile.GetSprites().unwrap().len(), 2);
    let drained = tile.DrainSprites();
    assert_eq!(drained.len(), 2);
    assert_eq!(drained[0].textureHandle.ID, 1);
    assert_eq!(drained[1].textureHandle.ID, 2);
    assert!(tile.GetSprites().is_none());
    assert!(tile.DrainSprites().is_empty());
}

#[test]
fn empty_tile_starts_with_the_sprites_it_was_given() {
    let tile = EmptyTile::New(Some(vec![object_sprite(3)]));
    assert_eq!(tile.GetSprites().unwrap().len(), 1);
    assert_eq!(tile.GetSprites().unwrap()[0].textureHandle.ID, 3);
}

#[test]
fn the_table_of_solid_objects() {
    let solid = [4, 5, 6, 8, 10, 11, 13, 14, 15, 16, 19, 20, 21, 25, 38, 39, 40, 42, 48, 49, 50];
    assert_eq!(NO_PASSTHROUGH_ID_LIST, solid);
    for id in -2..60 {
        assert_eq!(IsSolidObject(id), solid.contains(&id));
    }
}

#[test]
fn object_tile_stops_walkers_only_if_the_object_is_solid() {
    let barrel = ObjectTile::New(object_sprite(4));
    assert!(barrel.PlayerTileHit());
    assert!(!barrel.passthrough);
    let lamp = ObjectTile::New(object_sprite(7));
    assert!(!lamp.PlayerTileHit());
    assert!(lamp.passthrough);
    assert!(barrel.RayTileHit().is_none());
    assert_eq!(barrel.sprite.textureHandle.ID, 4);
    let mut c = cursor(0.5, 0.5, 1.0, 0.0);
    c.GoToNextHit();
    assert!(Tile::OBJECT(barrel).RayTileHit(&mut c).is_none());
    assert!(Tile::OBJECT(barrel).PlayerTileHit());
    assert!(!Tile::OBJECT(lamp).PlayerTileHit());
}

#[test]
fn end_values_of_doors() {
    assert_eq!(DoorPosition::OPEN.Value(), 0);
    assert_eq!(DoorPosition::CLOSED.Value(), UNIT);
    assert_eq!(DoorTimerVal::NO_TIME_LEFT.Value(), 0);
    assert_eq!(DoorTimerVal::FULL_TIME_LEFT.Value(), UNIT);
}

#[test]
fn a_new_door_is_closed() {
    let door = Door::New();
    assert_eq!(door.position, UNIT);
    assert_eq!(door.status, DoorStatus::CLOSED);
    assert_eq!(door.timerVal, UNIT);
    assert!(door.PlayerTileHit());
}

#[test]
fn a_closed_door_that_is_never_told_to_open_stays_closed() {
    let mut door = Door::New();
    for tick in 0..1000 {
        door.Update(fx(0.02), fx(0.01), tick % 3 == 0);
        assert_eq!(door.position, UNIT);
        assert_eq!(door.status, DoorStatus::CLOSED);
        assert_eq!(door.timerVal, UNIT);
    }
    // A closed door takes any tick.
    door.Update(i64::MAX, i64::MIN, false);
    door.Update(i64::MIN, i64::MAX, true);
    assert_eq!(door, Door::New());
}

#[test]
fn a_door_runs_through_its_cycle_without_skipping() {
    let mut door = Door::New();
    door.Open();
    assert_eq!(door.status, DoorStatus::OPENING);
    assert_eq!(door.position, UNIT);
    let mut seen: Vec<DoorStatus> = vec![door.status];
    for _ in 0..400 {
        let before = door.status;
        door.Update(fx(0.02), fx(0.01), false);
        assert!(0 <= door.position && door.position <= UNIT);
        assert!(-fx(0.01) <= door.timerVal && door.timerVal <= UNIT);
        let allowed = match before {
            DoorStatus::CLOSED => DoorStatus::OPENING,
            DoorStatus::OPENING => DoorStatus::OPEN,
            DoorStatus::OPEN => DoorStatus::CLOSING,
            DoorStatus::CLOSING => DoorStatus::CLOSED,
        };
        assert!(door.status == before || door.status == allowed);
        if door.status != before {
            seen.push(door.status);
        }
    }
    assert_eq!(
        seen,
        vec![DoorStatus::OPENING, DoorStatus::OPEN, DoorStatus::CLOSING, DoorStatus::CLOSED]
    );
    // The timer went below zero on the tick after the hundredth and stays
    // there until the door is open again.
    assert_eq!(door, Door { position: UNIT, status: DoorStatus::CLOSED, timerVal: UNIT - 101 * fx(0.01) });
    assert_eq!(door.timerVal, -619);
}

#[test]
fn an_opening_door_retracts_until_it_is_open() {
    let mut door = Door { position: fx(0.5), status: DoorStatus::OPENING, timerVal: 7 };
    door.Update(fx(0.2), 0, false);
    assert_eq!(door, Door { position: fx(0.5) - fx(0.2), status: DoorStatus::OPENING, timerVal: 7 });
    door.Update(fx(0.2), 0, false);
    assert_eq!(door.position, fx(0.5) - 2 * fx(0.2));
    assert_eq!(door.status, DoorStatus::OPENING);
    door.Update(fx(0.2), 0, false);
    assert_eq!(door, Door { position: 0, status: DoorStatus::OPEN, timerVal: UNIT });
}

#[test]
fn a_door_that_reaches_zero_exactly_is_open() {
    let mut door = Door { position: 100, status: DoorStatus::OPENING, timerVal: 0 };
    door.Update(100, 0, false);
    assert_eq!(door, Door { position: 0, status: DoorStatus::OPEN, timerVal: UNIT });
}

#[test]
fn an_open_door_waits_for_its_timer() {
    let mut door = Door { position: 0, status: DoorStatus::OPEN, timerVal: 250 };
    door.Update(5, 100, false);
    assert_eq!(door, Door { position: 0, status: DoorStatus::OPEN, timerVal: 150 });
    door.Update(5, 100, false);
    assert_eq!(door.timerVal, 50);
    door.Update(5, 50, false);
    // At zero the timer has not gone below zero yet.
    assert_eq!(door, Door { position: 0, status: DoorStatus::OPEN, timerVal: 0 });
    door.Update(5, 1, false);
    assert_eq!(door, Door { position: 0, status: DoorStatus::CLOSING, timerVal: -1 });
}

#[test]
fn the_timer_of_an_open_door_is_left_below_zero() {
    for (timer, incr) in [(10i64, 11i64), (0, 1), (UNIT, UNIT + 7), (fx(0.5), 2147483648), (-5, 0), (-5, 3)] {
        let mut door = Door { position: 0, status: DoorStatus::OPEN, timerVal: timer };
        door.Update(fx(0.02), incr, false);
        assert_eq!(door, Door { position: 0, status: DoorStatus::CLOSING, timerVal: timer - incr });
    }
    for (timer, incr) in [(10i64, 10i64), (10, 0), (UNIT, fx(0.01)), (0, 0)] {
        let mut door = Door { position: 0, status: DoorStatus::OPEN, timerVal: timer };
        door.Update(fx(0.02), incr, false);
        assert_eq!(door, Door { position: 0, status: DoorStatus::OPEN, timerVal: timer - incr });
    }
    // A closing door leaves its timer alone, and the door that is open
    // again has a full one.
    let mut door = Door { position: fx(0.5), status: DoorStatus::CLOSING, timerVal: -3 };
    door.Update(fx(0.02), 100, false);
    assert_eq!(door.timerVal, -3);
    door.status = DoorStatus::OPENING;
    door.Update(UNIT, 100, false);
    assert_eq!(door, Door { position: 0, status: DoorStatus::OPEN, timerVal: UNIT });
}

#[test]
fn a_player_in_the_doorway_keeps_the_door_open() {
    let mut door = Door { position: 0, status: DoorStatus::OPEN, timerVal: 10 };
    for _ in 0..50 {
        door.Update(fx(0.02), fx(0.5), true);
        assert_eq!(door, Door { position: 0, status: DoorStatus::OPEN, timerVal: UNIT });
    }
    door.Update(fx(0.02), fx(0.5), false);
    assert_eq!(door.timerVal, fx(0.5));
    door.Update(fx(0.02), fx(0.5), true);
    assert_eq!(door.timerVal, UNIT);
}

#[test]
fn a_closing_door_extends_until_it_is_closed() {
    let mut door = Door { position: 0, status: DoorStatus::CLOSING, timerVal: 0 };
    door.Update(fx(0.4), 0, false);
    assert_eq!(door, Door { position: fx(0.4), status: DoorStatus::CLOSING, timerVal: 0 });
    door.Update(fx(0.4), 0, false);
    door.Update(fx(0.4), 0, false);
    assert_eq!(door, Door { position: UNIT, status: DoorStatus::CLOSED, timerVal: 0 });
}

#[test]
fn position_stays_a_fraction_whatever_the_increments() {
    let increments = [i64::MIN, -UNIT - 1, -1, 0, 1, UNIT, i64::MAX];
    for status in [DoorStatus::OPENING, DoorStatus::CLOSING] {
        for position in [0, 1, fx(0.5), UNIT - 1, UNIT] {
            for incr in increments {
                let mut door = Door { position, status, timerVal: 0 };
                door.Update(incr, 0, false);
                assert!(0 <= door.position && door.position <= UNIT);
            }
        }
    }
    for incr in [0, 1, UNIT, 2147483648] {
        let mut door = Door { position: 0, status: DoorStatus::OPEN, timerVal: fx(0.5) };
        door.Update(incr, incr, false);
        assert_eq!(door.timerVal, fx(0.5) - incr);
        assert_eq!(door.position, 0);
    }
}

#[test]
fn an_open_command_starts_a_closed_door_only() {
    let mut closed = Door::New();
    closed.Open();
    assert_eq!(closed, Door { position: UNIT, status: DoorStatus::OPENING, timerVal: UNIT });
    let mut closing = Door { position: fx(0.6), status: DoorStatus::CLOSING, timerVal: -2 };
    closing.Open();
    assert_eq!(closing, Door { position: fx(0.6), status: DoorStatus::CLOSING, timerVal: -2 });
    let mut open = Door { position: 0, status: DoorStatus::OPEN, timerVal: 5 };
    open.Open();
    assert_eq!(open, Door { position: 0, status: DoorStatus::OPEN, timerVal: 5 });
    let mut opening = Door { position: 9, status: DoorStatus::OPENING, timerVal: 5 };
    opening.Open();
    assert_eq!(opening, Door { position: 9, status: DoorStatus::OPENING, timerVal: 5 });
}

#[test]
fn a_door_stops_walkers_above_its_clearance() {
    assert_eq!(DOOR_CLEARANCE, 13107);
    let mut door = Door { position: DOOR_CLEARANCE + 1, status: DoorStatus::OPENING, timerVal: 0 };
    assert!(door.PlayerTileHit());
    assert!(Tile::DOOR(door).PlayerTileHit());
    door.position = DOOR_CLEARANCE;
    assert!(!door.PlayerTileHit());
    assert!(!Tile::DOOR(door).PlayerTileHit());
    door.position = 0;
    assert!(!door.PlayerTileHit());
}

#[test]
fn a_closed_door_shows_its_leaf_at_the_middle_of_the_tile() {
    let door = Door::New();
    let mut c = cursor(0.5, 0.25, 4.0, 1.0);
    c.GoToNextHit();
    let slice = door.GetWallSlice(&mut c).unwrap();
    assert_eq!(slice.textureHandle, TextureHandle::New(TextureType::WALL, LEAF_LIT_TEXTURE));
    // The ray meets the middle at half the width; the leaf covers it all.
    assert_eq!(slice.textureRect, Rect::New(32, 0, 1, 64));
    assert_eq!(slice.dist, 67552);
    assert_eq!(Tile::DOOR(door).RayTileHit(&mut c), Some(slice));
    assert_eq!(door.RayTileHit(&mut c), Some(slice));
}

#[test]
fn a_door_entered_from_below_shows_the_unlit_leaf() {
    let door = Door::New();
    let mut c = cursor(0.25, 0.5, 1.0, 4.0);
    c.GoToNextHit();
    assert_eq!((c.hitTile.x, c.hitTile.y), (0, 1));
    let slice = door.GetWallSlice(&mut c).unwrap();
    assert_eq!(slice.textureHandle, TextureHandle::New(TextureType::WALL, LEAF_UNLIT_TEXTURE));
    assert_eq!(slice.textureRect, Rect::New(32, 0, 1, 64));
}

#[test]
fn a_retracted_leaf_lets_the_ray_pass() {
    let mut c = cursor(0.5, 0.25, 4.0, 1.0);
    c.GoToNextHit();
    // The ray meets the middle of the tile at half its width.
    let half = Door { position: fx(0.5), status: DoorStatus::OPENING, timerVal: 0 };
    assert!(half.GetWallSlice(&mut c).is_none());
    let more = Door { position: fx(0.5) + 1, status: DoorStatus::OPENING, timerVal: 0 };
    let slice = more.GetWallSlice(&mut c).unwrap();
    assert_eq!(slice.textureRect, Rect::New(0, 0, 1, 64));
    let most = Door { position: fx(0.75), status: DoorStatus::OPENING, timerVal: 0 };
    assert_eq!(most.GetWallSlice(&mut c).unwrap().textureRect, Rect::New(16, 0, 1, 64));
    let open = Door { position: 0, status: DoorStatus::OPEN, timerVal: 0 };
    assert!(open.GetWallSlice(&mut c).is_none());
}

#[test]
fn a_ray_that_grazes_a_side_of_the_doorway_passes() {
    let door = Door::New();
    let mut c = cursor(0.5, 0.5, 1.0, 2.0);
    c.GoToNextHit();
    assert!(door.GetWallSlice(&mut c).is_none());
    assert!(Tile::DOOR(door).RayTileHit(&mut c).is_none());
}
