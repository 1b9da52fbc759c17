use raycaster::animation::{AnimationClip, AnimationMagazine, AnimationReel};
use raycaster::enemy::{
    Enemy, EnemyInputsBuffer, EnemyState, EnemyType, FacingClip, GenerateEnemyAnimationMagazine, CORPSE_CLIP,
    DAMAGE_CLIP, DEATH_CLIP, ENEMY_DEATH_TICK, ENEMY_FRAME_TIME, ENEMY_HEALTH, ENEMY_TICK,
};
use raycaster::inputs_buffer::{doorCommand_t, lookCommand_t, moveCommand_t, InputsBuffer};
use raycaster::map::TileGrid;
use raycaster::multimedia::TextureType;
use raycaster::player::{EnemyOnTile, FindDoorInReach, FindEnemyInSight, Player, DIAGONAL};
use raycaster::tiles::{Door, DoorStatus, SpriteType, TextureHandle, Tile};
use raycaster::utils::conventions::UNIT;
use raycaster::utils::csv::ParseCSV;
use raycaster::utils::vec2d::{iPoint2, Point2, Vec2};

fn fx(v: f64) -> i64 {
    (v * 65536.0).round() as i64
}

fn load(lines: &[&str]) -> (TileGrid, Vec<Enemy>) {
    let records: Vec<Vec<Vec<u8>>> =
        lines.iter().map(|line| line.split(',').map(|field| field.as_bytes().to_vec()).collect()).collect();
    TileGrid::LoadFromCSV(&ParseCSV(&records).unwrap(), &vec![Vec2::New(UNIT, 0)]).unwrap()
}

fn textures(ids: &[i32]) -> Vec<TextureHandle> {
    ids.iter().map(|id| TextureHandle::New(TextureType::GUARD, *id)).collect()
}

fn reel_textures(clip: &AnimationClip) -> Vec<i32> {
    match clip {
        AnimationClip::REEL(reel) => reel.textures.iter().map(|t| t.ID).collect(),
        AnimationClip::STATIC(_) => panic!(),
    }
}

fn commands(look: lookCommand_t, walk: moveCommand_t, door: doorCommand_t, fire: bool) -> InputsBuffer {
    InputsBuffer { lookCommand: look, moveCommand: walk, doorCommand: door, fireWeapon: fire, ..InputsBuffer::New() }
}

#[test]
fn a_reel_shows_each_texture_for_its_time() {
    let mut reel = AnimationReel::New(textures(&[1, 2, 3]), 10, 4, None);
    assert_eq!(reel.currTextureIndex, 0);
    assert_eq!(reel.timer, 0);
    let mut shown: Vec<(u32, i64)> = Vec::new();
    for _ in 0..13 {
        assert_eq!(reel.Update(), None);
        shown.push((reel.currTextureIndex, reel.timer));
    }
    assert_eq!(
        shown,
        vec![
            (0, 4),
            (0, 8),
            (0, 12),
            (1, 0),
            (1, 4),
            (1, 8),
            (1, 12),
            (2, 0),
            (2, 4),
            (2, 8),
            (2, 12),
            (0, 0),
            (0, 4)
        ]
    );
}

#[test]
fn a_reel_hands_over_after_its_last_texture() {
    let mut reel = AnimationReel::New(textures(&[1, 2]), 5, 5, Some(7));
    assert_eq!(reel.Update(), None);
    assert_eq!(reel.Update(), None);
    assert_eq!(reel.currTextureIndex, 1);
    assert_eq!(reel.Update(), None);
    assert_eq!(reel.Update(), Some(7));
    assert_eq!((reel.currTextureIndex, reel.timer), (0, 0));
    let mut still = AnimationReel::New(textures(&[1]), 0, 0, Some(3));
    assert_eq!(still.Update(), Some(3));
    assert_eq!(still.Update(), Some(3));
}

#[test]
fn a_magazine_plays_one_clip_and_follows_its_handover() {
    let clips = vec![
        AnimationClip::STATIC(TextureHandle::New(TextureType::WEAPON, 6)),
        AnimationClip::REEL(AnimationReel::New(textures(&[7, 8]), 1, 1, Some(0))),
    ];
    let mut magazine = AnimationMagazine::New(clips, 0);
    assert_eq!(magazine.GetCurrTexture(), TextureHandle::New(TextureType::WEAPON, 6));
    magazine.Update();
    assert_eq!(magazine.currClipIndex, 0);
    magazine.currClipIndex = 1;
    let mut shown: Vec<i32> = Vec::new();
    for _ in 0..4 {
        shown.push(magazine.GetCurrTexture().ID);
        magazine.Update();
    }
    assert_eq!(shown, vec![7, 7, 8, 8]);
    assert_eq!(magazine.currClipIndex, 0);
    assert_eq!(magazine.GetCurrTexture().ID, 6);
}

#[test]
fn a_switch_takes_texture_number_and_timer_along() {
    let clips = vec![
        AnimationClip::REEL(AnimationReel::New(textures(&[1, 2, 3]), 10, 4, None)),
        AnimationClip::REEL(AnimationReel::New(textures(&[11, 12, 13]), 10, 4, None)),
        AnimationClip::STATIC(TextureHandle::New(TextureType::GUARD, 99)),
    ];
    let mut magazine = AnimationMagazine::New(clips, 0);
    for _ in 0..5 {
        magazine.Update();
    }
    assert_eq!(magazine.GetCurrTexture().ID, 2);
    magazine.SwitchClipIndexWithTimeCopy(1);
    assert_eq!(magazine.currClipIndex, 1);
    assert_eq!(magazine.GetCurrTexture().ID, 12);
    match (&magazine.clips[0], &magazine.clips[1]) {
        (AnimationClip::REEL(from), AnimationClip::REEL(to)) => {
            assert_eq!((from.currTextureIndex, from.timer), (0, 0));
            assert_eq!((to.currTextureIndex, to.timer), (1, 4));
        },
        _ => panic!(),
    }
    magazine.SwitchClipIndexWithTimeCopy(2);
    assert_eq!(magazine.currClipIndex, 2);
    assert_eq!(magazine.GetCurrTexture().ID, 99);
    assert!(matches!(&magazine.clips[1], AnimationClip::REEL(reel) if reel.currTextureIndex == 0 && reel.timer == 0));
}

#[test]
fn the_magazine_of_an_enemy() {
    let magazine = GenerateEnemyAnimationMagazine(TextureType::OFFICER);
    assert_eq!(magazine.currClipIndex, 0);
    assert_eq!(magazine.clips.len(), 11);
    for i in 0..8 {
        assert_eq!(reel_textures(&magazine.clips[i as usize]), vec![9 + i, 17 + i, 25 + i, 33 + i]);
    }
    assert_eq!(reel_textures(&magazine.clips[8]), vec![41]);
    assert_eq!(reel_textures(&magazine.clips[9]), vec![42, 43, 44, 45]);
    for (i, clip) in magazine.clips.iter().enumerate() {
        match clip {
            AnimationClip::REEL(reel) => {
                assert!(reel.textures.iter().all(|t| t.textureType == TextureType::OFFICER));
                assert_eq!(reel.timeInterval, ENEMY_FRAME_TIME);
                assert_eq!(reel.timer, 0);
                assert_eq!(reel.currTextureIndex, 0);
                let (tick, next) = match i {
                    8 => (ENEMY_TICK, Some(0)),
                    9 => (ENEMY_DEATH_TICK, Some(CORPSE_CLIP)),
                    _ => (ENEMY_TICK, None),
                };
                assert_eq!(reel.perFrameTimeIncrement, tick);
                assert_eq!(reel.loopbackClipIndex, next);
            },
            AnimationClip::STATIC(texture) => {
                assert_eq!(i, 10);
                assert_eq!(*texture, TextureHandle::New(TextureType::OFFICER, 45));
            },
        }
    }
    assert_eq!(EnemyInputsBuffer::New(), EnemyInputsBuffer { damage: false });
}

#[test]
fn a_new_enemy_is_idle_and_at_full_health() {
    let e = Enemy::New(EnemyType::SS, Point2::New(7, 8), iPoint2::New(0, 0), Vec2::New(0, -UNIT));
    assert_eq!(e.enemyType, EnemyType::SS);
    assert_eq!((e.location.x, e.location.y), (7, 8));
    assert_eq!((e.viewDir.x, e.viewDir.y), (0, -UNIT));
    assert_eq!(e.currState, EnemyState::IDLE);
    assert_eq!(e.health, ENEMY_HEALTH);
    assert!(!e.inputsBuffer.damage);
    assert!(matches!(&e.AM_enemySprites.clips[10], AnimationClip::STATIC(t) if t.textureType == TextureType::SS));
}

#[test]
fn the_clip_of_a_walking_enemy_follows_the_side_it_is_seen_from() {
    // The player looks along the enemy's right.
    assert_eq!(FacingClip(0, UNIT), 2);
    // The two look the same way: the player sees the enemy's back.
    assert_eq!(FacingClip(UNIT, 0), 4);
    assert_eq!(FacingClip(0, -UNIT), 6);
    assert_eq!(FacingClip(-1, -UNIT), 6);
    // They look at each other.
    assert_eq!(FacingClip(-UNIT, 0), 0);
    assert_eq!(FacingClip(46341, 46341), 3);
    assert_eq!(FacingClip(46341, -46341), 5);
    assert_eq!(FacingClip(-46341, -46341), 7);
    assert_eq!(FacingClip(-46341, 46341), 1);
    assert_eq!(FacingClip(-1, UNIT), 2);
    // The sectors meet at odd multiples of a sixteenth of a turn.
    assert_eq!(FacingClip(1, 60547), 3);
    assert_eq!(FacingClip(1, 60548), 2);
    assert_eq!(FacingClip(1, 25080), 4);
    assert_eq!(FacingClip(1, 25081), 3);
    assert_eq!(FacingClip(-1, 60547), 2);
    assert_eq!(FacingClip(-1, 60546), 1);
    assert_eq!(FacingClip(-1, -25080), 0);
    assert_eq!(FacingClip(-1, -25081), 7);
}

#[test]
fn an_enemy_shows_itself_from_the_side_of_the_player() {
    let mut e = Enemy::New(EnemyType::GUARD, Point2::New(fx(2.5), fx(1.5)), iPoint2::New(2, 1), Vec2::New(UNIT, 0));
    let sprite = e.CalculateSprite(Vec2::New(UNIT, 0));
    assert_eq!(e.AM_enemySprites.currClipIndex, 4);
    assert_eq!(sprite.spriteType, SpriteType::ENEMY);
    assert_eq!(sprite.textureHandle, TextureHandle::New(TextureType::GUARD, 13));
    assert_eq!((sprite.location.x, sprite.location.y), (fx(2.5), fx(1.5)));
    let sprite = e.CalculateSprite(Vec2::New(-UNIT, 0));
    assert_eq!(e.AM_enemySprites.currClipIndex, 0);
    assert_eq!(sprite.textureHandle, TextureHandle::New(TextureType::GUARD, 9));
    // A dying enemy does not turn.
    e.AM_enemySprites.currClipIndex = DEATH_CLIP;
    let sprite = e.CalculateSprite(Vec2::New(UNIT, 0));
    assert_eq!(e.AM_enemySprites.currClipIndex, DEATH_CLIP);
    assert_eq!(sprite.textureHandle, TextureHandle::New(TextureType::GUARD, 42));
}

#[test]
fn an_enemy_does_not_step_onto_the_tile_of_the_player() {
    let (map, _) = load(&["W-1,W-1,W-1,W-1,W-1", "W-1,,,,W-1", "W-1,W-1,W-1,W-1,W-1"]);
    assert!(matches!(map.GetTile(iPoint2::New(2, 1)), Tile::EMPTY(_)));
    let start = Point2::New(fx(2.0) - 100, fx(1.5));
    let mut e = Enemy::New(EnemyType::GUARD, start, iPoint2::New(1, 1), Vec2::New(UNIT, 0));
    let player = Player::New(Point2::New(fx(2.5), fx(1.5)), 60);
    e.Update(&map, &player, Vec2::New(-UNIT, 0));
    // The step would have taken it into the tile of the player.
    assert_eq!((e.location.x, e.location.y), (start.x, start.y));
    assert_eq!((e.tile.x, e.tile.y), (1, 1));
    assert_eq!((e.viewDir.x, e.viewDir.y), (-UNIT, 0));
    // With the player elsewhere the same step is taken.
    let mut f = Enemy::New(EnemyType::GUARD, start, iPoint2::New(1, 1), Vec2::New(UNIT, 0));
    let away = Player::New(Point2::New(fx(3.5), fx(1.5)), 60);
    f.Update(&map, &away, Vec2::New(-UNIT, 0));
    assert_eq!((f.location.x, f.location.y), (start.x + 655, start.y));
    assert_eq!((f.tile.x, f.tile.y), (2, 1));
    assert_eq!((f.viewDir.x, f.viewDir.y), (UNIT, 0));
}

#[test]
fn an_enemy_that_is_hit_loses_health_until_it_is_dead() {
    let (map, _) = load(&["W-1,W-1,W-1,W-1,W-1", "W-1,,,,W-1", "W-1,W-1,W-1,W-1,W-1"]);
    let player = Player::New(Point2::New(fx(1.5), fx(1.5)), 60);
    let mut e = Enemy::New(EnemyType::GUARD, Point2::New(fx(3.5), fx(1.5)), iPoint2::New(3, 1), Vec2::New(0, 0));
    for hit in 1..=7 {
        e.inputsBuffer.damage = true;
        e.Update(&map, &player, Vec2::New(0, 0));
        assert_eq!(e.currState, EnemyState::DAMAGE);
        assert!(!e.inputsBuffer.damage);
        e.Update(&map, &player, Vec2::New(0, 0));
        assert_eq!(e.health, 150 - 20 * hit);
        assert_eq!(e.currState, EnemyState::IDLE);
        if hit == 1 {
            assert_eq!(e.AM_enemySprites.currClipIndex, DAMAGE_CLIP);
            assert_eq!(e.AM_enemySprites.GetCurrTexture(), TextureHandle::New(TextureType::GUARD, 41));
        }
        // While the hit shows the enemy stands still.
        let at = (e.location.x, e.location.y);
        e.Update(&map, &player, Vec2::New(0, 0));
        assert_eq!((e.location.x, e.location.y), at);
    }
    assert_eq!(e.health, 10);
    e.inputsBuffer.damage = true;
    e.Update(&map, &player, Vec2::New(0, 0));
    e.Update(&map, &player, Vec2::New(0, 0));
    assert_eq!(e.health, -10);
    assert_eq!(e.currState, EnemyState::DEAD);
    assert_eq!(e.AM_enemySprites.currClipIndex, DEATH_CLIP);
    e.inputsBuffer.damage = true;
    for _ in 0..200 {
        e.Update(&map, &player, Vec2::New(0, 0));
    }
    assert_eq!(e.health, -10);
    assert_eq!(e.currState, EnemyState::DEAD);
    assert_eq!(e.AM_enemySprites.currClipIndex, CORPSE_CLIP);
    assert_eq!(e.AM_enemySprites.GetCurrTexture(), TextureHandle::New(TextureType::GUARD, 45));
}

#[test]
fn a_new_player_looks_north_east() {
    let p = Player::New(Point2::New(fx(1.5), fx(1.5)), 60);
    assert_eq!((p.viewDir.x, p.viewDir.y), (DIAGONAL, DIAGONAL));
    assert_eq!((p.east.x, p.east.y), (DIAGONAL, -DIAGONAL));
    assert_eq!((p.west.x, p.west.y), (-DIAGONAL, DIAGONAL));
    assert_eq!(p.AM_weapon.currClipIndex, 0);
    assert_eq!(p.AM_weapon.GetCurrTexture(), TextureHandle::New(TextureType::WEAPON, 6));
    assert_eq!(reel_textures(&p.AM_weapon.clips[1]), vec![7, 8, 9, 9]);
    let tick = |rate: usize| match &Player::New(Point2::New(0, 0), rate).AM_weapon.clips[1] {
        AnimationClip::REEL(reel) => reel.perFrameTimeIncrement,
        _ => panic!(),
    };
    assert_eq!(tick(60), 3276);
    assert_eq!(tick(144), 1365);
    assert_eq!(tick(1), 196608);
    assert_eq!(tick(196609), 0);
    assert_eq!(tick(usize::MAX), 0);
}

#[test]
fn walking_commands_are_relative_to_the_direction_of_view() {
    let (mut map, mut enemies) =
        load(&["W-1,W-1,W-1,W-1,W-1", "W-1,,,,W-1", "W-1,,,,W-1", "W-1,,,,W-1", "W-1,W-1,W-1,W-1,W-1"]);
    let cases: [(moveCommand_t, (i64, i64)); 9] = [
        (moveCommand_t::SOUTH_EAST, (0, -5242)),
        (moveCommand_t::SOUTH_WEST, (-5242, 0)),
        (moveCommand_t::NORTH, (3706, 3706)),
        (moveCommand_t::SOUTH, (-3706, -3706)),
        (moveCommand_t::EAST, (3706, -3707)),
        (moveCommand_t::WEST, (-3707, 3706)),
        (moveCommand_t::NORTH_EAST, (5240, -2)),
        (moveCommand_t::NORTH_WEST, (-2, 5240)),
        (moveCommand_t::NONE, (0, 0)),
    ];
    for (command, (dx, dy)) in cases {
        let mut p = Player::New(Point2::New(fx(2.5), fx(2.5)), 60);
        p.Update(
            &commands(lookCommand_t::NONE, command, doorCommand_t::NONE, false),
            &mut map,
            &mut enemies,
            5242,
            Vec2::New(UNIT, 0),
        );
        assert_eq!((p.location.x - fx(2.5), p.location.y - fx(2.5)), (dx, dy));
        assert_eq!((p.viewDir.x, p.viewDir.y), (DIAGONAL, DIAGONAL));
    }
}

#[test]
fn the_player_cannot_walk_through_a_closed_door() {
    let (mut map, mut enemies) = load(&["W-1,W-1,W-1,W-1", "W-1,,D,W-1", "W-1,W-1,W-1,W-1"]);
    let mut p = Player::New(Point2::New(fx(1.5), fx(1.5)), 60);
    p.viewDir = Vec2::New(UNIT, 0);
    p.east = Vec2::New(0, -UNIT);
    p.west = Vec2::New(0, UNIT);
    let walk = commands(lookCommand_t::NONE, moveCommand_t::NORTH, doorCommand_t::NONE, false);
    p.Update(&walk, &mut map, &mut enemies, fx(0.6), Vec2::New(UNIT, 0));
    assert_eq!(p.location.x, fx(1.5));
    if let Tile::DOOR(door) = map.GetMutTile(iPoint2::New(2, 1)) {
        *door = Door { position: 13108, status: DoorStatus::OPENING, timerVal: UNIT };
    }
    p.Update(&walk, &mut map, &mut enemies, fx(0.6), Vec2::New(UNIT, 0));
    assert_eq!(p.location.x, fx(1.5));
    if let Tile::DOOR(door) = map.GetMutTile(iPoint2::New(2, 1)) {
        door.position = 13107;
    }
    p.Update(&walk, &mut map, &mut enemies, fx(0.6), Vec2::New(UNIT, 0));
    assert_eq!(p.location.x, fx(2.1));
}

#[test]
fn the_door_in_reach_is_the_first_that_is_not_open() {
    let (mut map, _) = load(&["W-1,W-1,W-1,W-1,W-1,W-1,W-1", "W-1,,D,,D,,W-1", "W-1,W-1,W-1,W-1,W-1,W-1,W-1"]);
    let from = Point2::New(fx(1.5), fx(1.5));
    let east = Vec2::New(UNIT, 0);
    let found = FindDoorInReach(&map, from, east).unwrap();
    assert_eq!((found.x, found.y), (2, 1));
    map.OpenDoor(found);
    // A door that opens already ends the search.
    assert!(FindDoorInReach(&map, from, east).is_none());
    if let Tile::DOOR(door) = map.GetMutTile(iPoint2::New(2, 1)) {
        *door = Door { position: 0, status: DoorStatus::OPEN, timerVal: UNIT };
    }
    let found = FindDoorInReach(&map, from, east).unwrap();
    assert_eq!((found.x, found.y), (4, 1));
    if let Tile::DOOR(door) = map.GetMutTile(iPoint2::New(2, 1)) {
        *door = Door { position: fx(0.5), status: DoorStatus::CLOSING, timerVal: -1 };
    }
    // So does a door that closes: it is left to close.
    assert!(FindDoorInReach(&map, from, east).is_none());
    if let Tile::DOOR(door) = map.GetMutTile(iPoint2::New(2, 1)) {
        *door = Door::New();
    }
    let found = FindDoorInReach(&map, from, east).unwrap();
    assert_eq!((found.x, found.y), (2, 1));
    assert!(FindDoorInReach(&map, from, Vec2::New(0, UNIT)).is_none());
    assert!(FindDoorInReach(&map, from, Vec2::New(-UNIT, 0)).is_none());
}

#[test]
fn a_door_is_in_reach_up_to_four_tiles_away() {
    let (map, _) = load(&["W-1,W-1,W-1,W-1,W-1,W-1,W-1,W-1", "W-1,,,,,,D,W-1", "W-1,W-1,W-1,W-1,W-1,W-1,W-1,W-1"]);
    let east = Vec2::New(UNIT, 0);
    assert!(FindDoorInReach(&map, Point2::New(fx(2.0) - 1, fx(1.5)), east).is_none());
    assert!(FindDoorInReach(&map, Point2::New(fx(2.0), fx(1.5)), east).is_some());
    assert!(FindDoorInReach(&map, Point2::New(fx(5.5), fx(1.5)), east).is_some());
}

#[test]
fn a_shot_passes_objects_and_open_doors_but_no_walls() {
    let (mut map, enemies) =
        load(&["W-1,W-1,W-1,W-1,W-1,W-1,W-1", "W-1,,O-4,D,GU,OF,W-1", "W-1,,W-1,,,,W-1", "W-1,,SS,,,,W-1", "W-1,W-1,W-1,W-1,W-1,W-1,W-1"]);
    // In the order of columns: the SS, the guard, the officer.
    assert_eq!(enemies.len(), 3);
    assert_eq!(enemies[0].enemyType, EnemyType::SS);
    let from = Point2::New(fx(1.5), fx(3.5));
    let east = Vec2::New(UNIT, 0);
    // In the top row the closed door is in the way.
    assert!(FindEnemyInSight(&map, &enemies, from, east).is_none());
    if let Tile::DOOR(door) = map.GetMutTile(iPoint2::New(3, 3)) {
        *door = Door { position: fx(0.25), status: DoorStatus::OPENING, timerVal: UNIT };
    }
    assert_eq!(FindEnemyInSight(&map, &enemies, from, east), Some(1));
    // Below the middle of the doorway the leaf is still in the way.
    assert!(FindEnemyInSight(&map, &enemies, Point2::New(fx(1.5), fx(3.125)), east).is_none());
    let mut hurt = enemies;
    hurt[1].health = 0;
    assert_eq!(FindEnemyInSight(&map, &hurt, from, east), Some(2));
    hurt[2].health = -5;
    assert!(FindEnemyInSight(&map, &hurt, from, east).is_none());
    // In the bottom row nothing is in the way; in the middle row a wall is.
    assert_eq!(FindEnemyInSight(&map, &hurt, Point2::New(fx(1.5), fx(1.5)), east), Some(0));
    assert!(FindEnemyInSight(&map, &hurt, Point2::New(fx(1.5), fx(2.5)), east).is_none());
    assert_eq!(EnemyOnTile(&hurt, iPoint2::New(2, 1)), Some(0));
    assert_eq!(EnemyOnTile(&hurt, iPoint2::New(4, 3)), None);
    assert_eq!(EnemyOnTile(&hurt, iPoint2::New(1, 1)), None);
}

#[test]
fn firing_starts_the_firing_clip_of_the_weapon() {
    let (mut map, mut enemies) = load(&["W-1,W-1,W-1", "W-1,,W-1", "W-1,W-1,W-1"]);
    let mut p = Player::New(Point2::New(fx(1.5), fx(1.5)), 60);
    let idle = commands(lookCommand_t::NONE, moveCommand_t::NONE, doorCommand_t::NONE, false);
    let fire = commands(lookCommand_t::NONE, moveCommand_t::NONE, doorCommand_t::NONE, true);
    p.Update(&idle, &mut map, &mut enemies, 0, Vec2::New(UNIT, 0));
    assert_eq!(p.AM_weapon.currClipIndex, 0);
    p.Update(&fire, &mut map, &mut enemies, 0, Vec2::New(UNIT, 0));
    assert_eq!(p.AM_weapon.currClipIndex, 1);
    assert_eq!(p.AM_weapon.GetCurrTexture().ID, 7);
    let mut shown: Vec<i32> = Vec::new();
    for _ in 0..20 {
        p.Update(&idle, &mut map, &mut enemies, 0, Vec2::New(UNIT, 0));
        shown.push(p.AM_weapon.GetCurrTexture().ID);
    }
    assert_eq!(shown, vec![7, 7, 7, 7, 8, 8, 8, 8, 8, 9, 9, 9, 9, 9, 9, 9, 9, 9, 9, 6]);
}
