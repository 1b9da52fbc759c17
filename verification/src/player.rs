use vstd::prelude::*;
use vstd::std_specs::ops::MulSpec;
use crate::animation::{AnimationClip, AnimationMagazine, AnimationReel, MagazineModel};
use crate::enemy::Enemy;
use crate::inputs_buffer::{doorCommand_t, lookCommand_t, moveCommand_t, InputsBuffer};
use crate::map::TileGrid;
use crate::multimedia::TextureType;
use crate::tiles::{DoorStatus, TextureHandle, Tile, TileModel};
use crate::utils::conventions::{COORD_LIMIT, UNIT, VEC_LIMIT};
use crate::utils::dda::{CursorModel, RayCursor};
use crate::utils::misc_math::{abs, lemma_floor_sqrt};
use crate::utils::ray::{ray_of, Ray};
use crate::utils::vec2d::{iPoint2, Point2, Vec2, Vec2D};

verus! {

/// The factor that gives each of two equal components of a step of unit
/// length (about `0.7071067`), rounded down.
pub const DIAGONAL: i64 = 46340;

/// How far away a door can be opened: four tiles.
pub const DOOR_REACH: i64 = 262144;

/// The texture that shows the weapon at rest.
pub const WEAPON_AT_REST: i32 = 6;

/// How long each texture of the firing weapon is shown (about `0.15`).
pub const WEAPON_FRAME_TIME: i64 = 9830;

/// How far the timer of the firing weapon moves in a sixtieth of a second
/// (about `0.05`), times sixty.
pub const WEAPON_TICK_PER_SECOND: i64 = 196608;

/// The player: where it is, where it looks, the directions to its right
/// and left, and how its weapon is shown.
#[derive(Clone, Debug)]
pub struct Player {
    pub location: Point2,
    pub viewDir: Vec2,
    pub east: Vec2,
    pub west: Vec2,
    pub AM_weapon: AnimationMagazine,
}

/// `v` turned clockwise by a quarter turn.
pub open spec fn quarter_right(v: Vec2) -> Vec2 {
    Vec2D { x: v.y, y: (-v.x) as i64 }
}

/// `v` turned counter-clockwise by a quarter turn.
pub open spec fn quarter_left(v: Vec2) -> Vec2 {
    Vec2D { x: (-v.y) as i64, y: v.x }
}

/// The direction in which a player looks after a turn. `turn` holds the
/// cosine and the sine of the angle of the turn. The direction is turned
/// by that angle, clockwise for a turn to the right, and brought back to
/// unit length. Without a turn, and where nothing would be left of the
/// direction, it stays as it is.
pub open spec fn turned(viewDir: Vec2, look: lookCommand_t, turn: Vec2) -> Vec2 {
    let rotated = match look {
        lookCommand_t::RIGHT => viewDir.rotated(turn.x as int, -turn.y),
        lookCommand_t::LEFT => viewDir.rotated(turn.x as int, turn.y as int),
        lookCommand_t::NONE => viewDir,
    };
    if look == lookCommand_t::NONE || (rotated.x == 0 && rotated.y == 0) {
        viewDir
    } else {
        rotated.unit()
    }
}

/// The door that a player opens who stands at the origin of the ray of the
/// cursor `c` and looks along it: the first door on the ray that is not
/// open, if it is closed and within reach and no wall or object stands
/// before it. A door that is opening or closing is left alone. The cursor
/// has walked the ray up to `c`.
pub open spec fn door_in_reach(map: TileGrid, c: CursorModel) -> Option<(int, int)>
    decreases map.room(c),
    when c.ray.dx != 0 || c.ray.dy != 0
{
    let n = c.step();
    if !map.in_grid(n.tx, n.ty) || n.dist() > DOOR_REACH {
        None
    } else {
        match map.tile_at(n.tx, n.ty) {
            TileModel::EMPTY(_) => door_in_reach(map, n),
            TileModel::DOOR(d) => match d.status {
                DoorStatus::CLOSED => Some((n.tx, n.ty)),
                DoorStatus::OPENING | DoorStatus::CLOSING => None,
                DoorStatus::OPEN => door_in_reach(map, n),
            },
            _ => None,
        }
    }
}

/// The first of the enemies `enemies` that stands on the tile in column
/// `x` and row `y` and has health left, counted from `from`.
pub open spec fn enemy_on_tile(enemies: Seq<Enemy>, x: int, y: int, from: int) -> Option<int>
    decreases enemies.len() - from,
{
    if from < 0 || from >= enemies.len() {
        None
    } else if enemies[from].tile.x == x && enemies[from].tile.y == y && enemies[from].health > 0 {
        Some(from)
    } else {
        enemy_on_tile(enemies, x, y, from + 1)
    }
}

/// The enemy that a shot hits which is fired from the origin of the ray
/// of the cursor `c` along the ray: the first enemy with health left in
/// the first empty tile on the ray that holds one, unless a wall or the
/// leaf of a door stands before it. The cursor has walked the ray up to
/// `c`.
pub open spec fn enemy_in_sight(map: TileGrid, enemies: Seq<Enemy>, c: CursorModel) -> Option<int>
    decreases map.room(c),
    when c.ray.dx != 0 || c.ray.dy != 0
{
    let n = c.step();
    if !map.in_grid(n.tx, n.ty) {
        None
    } else {
        match map.tile_at(n.tx, n.ty) {
            TileModel::EMPTY(_) => match enemy_on_tile(enemies, n.tx, n.ty, 0) {
                Some(i) => Some(i),
                None => enemy_in_sight(map, enemies, n),
            },
            TileModel::OBJECT(_) => enemy_in_sight(map, enemies, n),
            TileModel::DOOR(d) => if d.leaf_blocks(n) {
                None
            } else {
                enemy_in_sight(map, enemies, n)
            },
            TileModel::WALL(_) => None,
        }
    }
}

/// The cursor at the start of the ray from `location` along `viewDir`.
pub open spec fn sight_start(location: Point2, viewDir: Vec2) -> CursorModel {
    CursorModel::start(ray_of(location, viewDir))
}

/// Finds the door that a player opens who stands at `location` and looks
/// along `viewDir`.
pub fn FindDoorInReach(map: &TileGrid, location: Point2, viewDir: Vec2) -> (r: Option<iPoint2>)
    requires
        map.wf(),
        location.within(COORD_LIMIT as int),
        viewDir.within(UNIT as int),
        viewDir.x != 0 || viewDir.y != 0,
    ensures
        match r {
            Some(c) => map.contains(c) && door_in_reach(*map, sight_start(location, viewDir)) == Some(
                (c.x as int, c.y as int),
            ),
            None => door_in_reach(*map, sight_start(location, viewDir)) is None,
        },
{
    let mut rayCursor = RayCursor::New(Ray::New(location, viewDir), location);
    let ghost start = rayCursor@;
    loop
        invariant
            map.wf(),
            rayCursor.wf(),
            rayCursor.can_advance(),
            rayCursor@.ray.dx != 0 || rayCursor@.ray.dy != 0,
            start == sight_start(location, viewDir),
            door_in_reach(*map, start) == door_in_reach(*map, rayCursor@),
        decreases map.room(rayCursor@),
    {
        rayCursor.GoToNextHit();
        if !map.Contains(rayCursor.hitTile) {
            return None;
        }
        if rayCursor.GetDistToHitPoint() > DOOR_REACH {
            return None;
        }
        match map.GetTile(rayCursor.hitTile) {
            Tile::EMPTY(_) => {},
            Tile::DOOR(hitDoor) => {
                match hitDoor.status {
                    DoorStatus::CLOSED => {
                        return Some(rayCursor.hitTile);
                    },
                    DoorStatus::OPENING | DoorStatus::CLOSING => {
                        return None;
                    },
                    DoorStatus::OPEN => {},
                }
            },
            _ => {
                return None;
            },
        }
    }
}

/// Finds the first of `enemies` that stands on `tile` and has health left.
pub fn EnemyOnTile(enemies: &Vec<Enemy>, tile: iPoint2) -> (r: Option<usize>)
    ensures
        match r {
            Some(i) => i < enemies@.len() && enemy_on_tile(enemies@, tile.x as int, tile.y as int, 0)
                == Some(i as int),
            None => enemy_on_tile(enemies@, tile.x as int, tile.y as int, 0) is None,
        },
{
    let mut i: usize = 0;
    while i < enemies.len()
        invariant
            0 <= i <= enemies@.len(),
            enemy_on_tile(enemies@, tile.x as int, tile.y as int, 0) == enemy_on_tile(
                enemies@,
                tile.x as int,
                tile.y as int,
                i as int,
            ),
        decreases enemies@.len() - i,
    {
        if enemies[i].tile == tile && enemies[i].health > 0 {
            return Some(i);
        }
        i = i + 1;
    }
    None
}

/// Finds the enemy that a shot hits which is fired from `location` along
/// `viewDir`.
pub fn FindEnemyInSight(map: &TileGrid, enemies: &Vec<Enemy>, location: Point2, viewDir: Vec2) -> (r:
    Option<usize>)
    requires
        map.wf(),
        location.within(COORD_LIMIT as int),
        viewDir.within(UNIT as int),
        viewDir.x != 0 || viewDir.y != 0,
    ensures
        match r {
            Some(i) => i < enemies@.len() && enemy_in_sight(
                *map,
                enemies@,
                sight_start(location, viewDir),
            ) == Some(i as int),
            None => enemy_in_sight(*map, enemies@, sight_start(location, viewDir)) is None,
        },
{
    let mut rayCursor = RayCursor::New(Ray::New(location, viewDir), location);
    let ghost start = rayCursor@;
    loop
        invariant
            map.wf(),
            rayCursor.wf(),
            rayCursor.can_advance(),
            rayCursor@.ray.dx != 0 || rayCursor@.ray.dy != 0,
            start == sight_start(location, viewDir),
            enemy_in_sight(*map, enemies@, start) == enemy_in_sight(*map, enemies@, rayCursor@),
        decreases map.room(rayCursor@),
    {
        rayCursor.GoToNextHit();
        if !map.Contains(rayCursor.hitTile) {
            return None;
        }
        match map.GetTile(rayCursor.hitTile) {
            Tile::EMPTY(_) => {
                match EnemyOnTile(enemies, rayCursor.hitTile) {
                    Some(i) => {
                        return Some(i);
                    },
                    None => {},
                }
            },
            Tile::OBJECT(_) => {},
            Tile::DOOR(door) => {
                if door.GetWallSlice(&mut rayCursor).is_some() {
                    return None;
                }
            },
            Tile::WALL(_) => {
                return None;
            },
        }
    }
}

impl Player {
    /// The player is within the machine limits, looks along a direction of
    /// unit length with its right and left a quarter turn away, and has a
    /// weapon with a clip to rest and a clip to fire.
    pub open spec fn wf(self) -> bool {
        &&& self.location.within(COORD_LIMIT as int)
        &&& self.viewDir.within(UNIT as int)
        &&& self.viewDir.x != 0 || self.viewDir.y != 0
        &&& self.east == quarter_right(self.viewDir)
        &&& self.west == quarter_left(self.viewDir)
        &&& self.AM_weapon@.wf()
        &&& self.AM_weapon@.clips.len() >= 2
    }

    /// Where a walking command takes the player: `moveIncr` forward, back,
    /// to the right or to the left, or forward or back and to a side at
    /// once, each by `moveIncr` shortened by `DIAGONAL`.
    pub open spec fn move_target(self, command: moveCommand_t, moveIncr: i64) -> Point2 {
        let ahead = self.viewDir.mul_spec(moveIncr);
        let right = self.east.mul_spec(moveIncr);
        let left = self.west.mul_spec(moveIncr);
        let step = match command {
            moveCommand_t::SOUTH_EAST => Vec2D {
                x: (right.mul_spec(DIAGONAL).x - ahead.mul_spec(DIAGONAL).x) as i64,
                y: (right.mul_spec(DIAGONAL).y - ahead.mul_spec(DIAGONAL).y) as i64,
            },
            moveCommand_t::SOUTH_WEST => Vec2D {
                x: (left.mul_spec(DIAGONAL).x - ahead.mul_spec(DIAGONAL).x) as i64,
                y: (left.mul_spec(DIAGONAL).y - ahead.mul_spec(DIAGONAL).y) as i64,
            },
            moveCommand_t::NORTH => ahead,
            moveCommand_t::SOUTH => Vec2D { x: (-ahead.x) as i64, y: (-ahead.y) as i64 },
            moveCommand_t::EAST => right,
            moveCommand_t::WEST => left,
            moveCommand_t::NORTH_EAST => Vec2D {
                x: (ahead.mul_spec(DIAGONAL).x + right.mul_spec(DIAGONAL).x) as i64,
                y: (ahead.mul_spec(DIAGONAL).y + right.mul_spec(DIAGONAL).y) as i64,
            },
            moveCommand_t::NORTH_WEST => Vec2D {
                x: (ahead.mul_spec(DIAGONAL).x + left.mul_spec(DIAGONAL).x) as i64,
                y: (ahead.mul_spec(DIAGONAL).y + left.mul_spec(DIAGONAL).y) as i64,
            },
            moveCommand_t::NONE => Vec2D { x: 0i64, y: 0i64 },
        };
        Vec2D { x: (self.location.x + step.x) as i64, y: (self.location.y + step.y) as i64 }
    }

    /// Where the player is after a walking command: where the command
    /// takes it if a walker can stand there, else where it was.
    pub open spec fn moved(self, command: moveCommand_t, moveIncr: i64, map: TileGrid) -> Point2 {
        let target = self.move_target(command, moveIncr);
        if map.passable(target) {
            target
        } else {
            self.location
        }
    }

    /// The weapon's magazine after a tick in which the weapon was fired or
    /// not: the clip that plays moves on, and a shot starts the firing clip.
    pub open spec fn weapon_updated(self, fireWeapon: bool) -> MagazineModel {
        let updated = self.AM_weapon@.updated();
        if fireWeapon {
            MagazineModel { currClipIndex: 1, ..updated }
        } else {
            updated
        }
    }

    /// Whether `after`, `mapAfter` and `enemiesAfter` are this player, the
    /// map `mapBefore` and the enemies `enemiesBefore` after a tick of the
    /// player. The player has walked as it was told, if a walker can stand
    /// where that takes it, and turned as it was told. From where it is
    /// then, it has opened the door in its reach if it was told to, and its
    /// shot, if it fired, has marked the enemy in its sight as hit. Its
    /// weapon's animation has moved on.
    pub open spec fn updated_to(
        self,
        after: Player,
        inputsBuffer: InputsBuffer,
        mapBefore: TileGrid,
        mapAfter: TileGrid,
        enemiesBefore: Seq<Enemy>,
        enemiesAfter: Seq<Enemy>,
        moveIncr: i64,
        turn: Vec2,
    ) -> bool {
        &&& after.location == self.moved(inputsBuffer.moveCommand, moveIncr, mapBefore)
        &&& after.viewDir == turned(self.viewDir, inputsBuffer.lookCommand, turn)
        &&& after.east == quarter_right(after.viewDir)
        &&& after.west == quarter_left(after.viewDir)
        &&& after.AM_weapon@ == self.weapon_updated(inputsBuffer.fireWeapon)
        &&& match door_opened(mapBefore, inputsBuffer, after) {
            Some((x, y)) => mapAfter.differs_at(mapBefore, x, y, mapBefore.tile_at(x, y).opened()),
            None => mapAfter == mapBefore,
        }
        &&& enemiesAfter.len() == enemiesBefore.len()
        &&& forall|i: int|
            0 <= i < enemiesBefore.len() ==> #[trigger] enemiesAfter[i] == if enemy_shot(
                mapAfter,
                enemiesBefore,
                inputsBuffer,
                after,
            ) == Some(i) {
                Enemy {
                    inputsBuffer: crate::enemy::EnemyInputsBuffer { damage: true },
                    ..enemiesBefore[i]
                }
            } else {
                enemiesBefore[i]
            }
    }

    /// Whether this is a player that was just made at `location`, for a
    /// display that shows `refreshRate` frames a second. It looks
    /// north-east. Its weapon is a pistol at rest, whose firing clip shows
    /// four textures, with a timer that moves by the `refreshRate`-th part
    /// of `WEAPON_TICK_PER_SECOND` per tick, and hands over to the clip at
    /// rest.
    pub open spec fn is_new(self, location: Point2, refreshRate: usize) -> bool {
        &&& self.location == location
        &&& self.viewDir == (Vec2D { x: DIAGONAL, y: DIAGONAL })
        &&& self.east == quarter_right(self.viewDir)
        &&& self.west == quarter_left(self.viewDir)
        &&& self.AM_weapon@.currClipIndex == 0
        &&& self.AM_weapon@.clips.len() == 2
        &&& self.AM_weapon@.clips[0] == AnimationClip::STATIC(
            TextureHandle { textureType: TextureType::WEAPON, ID: WEAPON_AT_REST },
        )
        &&& self.AM_weapon@.clips[1] matches AnimationClip::REEL(reel) && reel.textures@ == seq![
            TextureHandle { textureType: TextureType::WEAPON, ID: 7 },
            TextureHandle { textureType: TextureType::WEAPON, ID: 8 },
            TextureHandle { textureType: TextureType::WEAPON, ID: 9 },
            TextureHandle { textureType: TextureType::WEAPON, ID: 9 },
        ] && reel.currTextureIndex == 0 && reel.timer == 0 && reel.timeInterval == WEAPON_FRAME_TIME
            && reel.perFrameTimeIncrement == (WEAPON_TICK_PER_SECOND as int) / (refreshRate as int)
            && reel.loopbackClipIndex == Some(0u32)
    }

    /// A player at `location` who looks north-east, with a pistol whose
    /// firing clip runs at the same speed whatever the refresh rate.
    pub fn New(location: Point2, refreshRate: usize) -> (p: Self)
        requires
            location.within(COORD_LIMIT as int),
            refreshRate > 0,
        ensures
            p.wf(),
            p.is_new(location, refreshRate),
    {
        let diagonal: Vec2 = Point2::New(UNIT, UNIT);
        proof {
            assert(diagonal.norm_squared() == 8589934592) by (nonlinear_arith)
                requires
                    diagonal.x == 65536,
                    diagonal.y == 65536,
                    diagonal.norm_squared() == diagonal.x * diagonal.x + diagonal.y * diagonal.y,
            ;
            lemma_floor_sqrt(46340, 2147483648);
        }
        let viewDir: Vec2 = diagonal.UnitVector();
        let east: Vec2 = Vec2::New(viewDir.y, -viewDir.x);
        let west: Vec2 = Vec2::New(-viewDir.y, viewDir.x);

        let tick: i64 = if refreshRate > 196608 {
            0
        } else {
            WEAPON_TICK_PER_SECOND / (refreshRate as i64)
        };
        proof {
            if refreshRate > 196608 {
                vstd::arithmetic::div_mod::lemma_basic_div(WEAPON_TICK_PER_SECOND as int, refreshRate as int);
            }
        }
        let mut clips: Vec<AnimationClip> = Vec::new();
        clips.push(AnimationClip::STATIC(TextureHandle::New(TextureType::WEAPON, WEAPON_AT_REST)));
        clips.push(
            AnimationClip::REEL(
                AnimationReel::New(
                    vec![
                        TextureHandle::New(TextureType::WEAPON, 7),
                        TextureHandle::New(TextureType::WEAPON, 8),
                        TextureHandle::New(TextureType::WEAPON, 9),
                        TextureHandle::New(TextureType::WEAPON, 9),
                    ],
                    WEAPON_FRAME_TIME,
                    tick,
                    Some(0),
                ),
            ),
        );
        let AM_pistol = AnimationMagazine::New(clips, 0);

        Player { location, viewDir, east, west, AM_weapon: AM_pistol }
    }

    /// Where a walking command takes the player.
    fn MoveTarget(&self, command: moveCommand_t, moveIncr: i64) -> (target: Point2)
        requires
            self.wf(),
            abs(moveIncr as int) <= VEC_LIMIT,
        ensures
            target == self.move_target(command, moveIncr),
    {
        proof {
            lemma_scaled_bound(self.east, moveIncr);
            lemma_scaled_bound(self.west, moveIncr);
        }
        match command {
            moveCommand_t::NORTH => self.location + self.viewDir * moveIncr,
            moveCommand_t::SOUTH => self.location - self.viewDir * moveIncr,
            moveCommand_t::EAST => self.location + self.east * moveIncr,
            moveCommand_t::WEST => self.location + self.west * moveIncr,
            moveCommand_t::NORTH_EAST => self.location + (self.viewDir * moveIncr * DIAGONAL + self.east
                * moveIncr * DIAGONAL),
            moveCommand_t::NORTH_WEST => self.location + (self.viewDir * moveIncr * DIAGONAL + self.west
                * moveIncr * DIAGONAL),
            moveCommand_t::SOUTH_EAST => self.location + (self.east * moveIncr * DIAGONAL - self.viewDir
                * moveIncr * DIAGONAL),
            moveCommand_t::SOUTH_WEST => self.location + (self.west * moveIncr * DIAGONAL - self.viewDir
                * moveIncr * DIAGONAL),
            moveCommand_t::NONE => self.location,
        }
    }

    /// Moves the player to `proposedLocation` if a walker can stand there.
    fn MoveIfValid(&mut self, proposedLocation: Point2, map: &TileGrid)
        requires
            map.grid_ok(),
        ensures
            *final(self) == (Player {
                location: if map.passable(proposedLocation) {
                    proposedLocation
                } else {
                    old(self).location
                },
                ..*old(self)
            }),
    {
        if map.Passable(proposedLocation) {
            self.location = proposedLocation;
        }
    }

    /// Lets one tick pass for the player: it walks, turns, opens a door
    /// and fires as `inputsBuffer` tells it. `turn` holds the cosine and
    /// the sine of the angle by which it turns if it turns.
    pub fn Update(
        &mut self,
        inputsBuffer: &InputsBuffer,
        map: &mut TileGrid,
        enemies: &mut Vec<Enemy>,
        moveIncr: i64,
        turn: Vec2,
    )
        requires
            old(self).wf(),
            old(map).wf(),
            abs(moveIncr as int) <= VEC_LIMIT,
            turn.within(UNIT as int),
        ensures
            final(self).wf(),
            final(map).wf(),
            old(self).updated_to(
                *final(self),
                *inputsBuffer,
                *old(map),
                *final(map),
                old(enemies)@,
                final(enemies)@,
                moveIncr,
                turn,
            ),
    {
        let proposedLoc: Point2 = self.MoveTarget(inputsBuffer.moveCommand, moveIncr);
        self.MoveIfValid(proposedLoc, map);
        self.Turn(inputsBuffer.lookCommand, turn);
        self.UseDoor(inputsBuffer.doorCommand, map);
        self.UseWeapon(inputsBuffer.fireWeapon, map, enemies);
    }

    /// Turns the player as the turning command tells it.
    fn Turn(&mut self, look: lookCommand_t, turn: Vec2)
        requires
            old(self).wf(),
            turn.within(UNIT as int),
        ensures
            final(self).wf(),
            *final(self) == (Player {
                viewDir: turned(old(self).viewDir, look, turn),
                east: quarter_right(turned(old(self).viewDir, look, turn)),
                west: quarter_left(turned(old(self).viewDir, look, turn)),
                ..*old(self)
            }),
    {
        match look {
            lookCommand_t::RIGHT => {
                proof {
                    lemma_rotated_bound(self.viewDir, turn.x as int, -turn.y, UNIT as int);
                }
                let rotated: Vec2 = self.viewDir.Rotate(turn.x, -turn.y);
                if rotated.x != 0 || rotated.y != 0 {
                    self.viewDir = rotated.UnitVector();
                }
            },
            lookCommand_t::LEFT => {
                proof {
                    lemma_rotated_bound(self.viewDir, turn.x as int, turn.y as int, UNIT as int);
                }
                let rotated: Vec2 = self.viewDir.Rotate(turn.x, turn.y);
                if rotated.x != 0 || rotated.y != 0 {
                    self.viewDir = rotated.UnitVector();
                }
            },
            lookCommand_t::NONE => {},
        }

        self.east = Vec2::New(self.viewDir.y, -self.viewDir.x);
        self.west = Vec2::New(-self.viewDir.y, self.viewDir.x);
    }

    /// Opens the door in the player's reach if it is told to open one.
    fn UseDoor(&self, command: doorCommand_t, map: &mut TileGrid)
        requires
            self.wf(),
            old(map).wf(),
        ensures
            final(map).wf(),
            match (if command == doorCommand_t::OPEN {
                door_in_reach(*old(map), sight_start(self.location, self.viewDir))
            } else {
                None
            }) {
                Some((x, y)) => final(map).differs_at(
                    *old(map),
                    x,
                    y,
                    old(map).tile_at(x, y).opened(),
                ),
                None => *final(map) == *old(map),
            },
    {
        match command {
            doorCommand_t::OPEN => {
                match FindDoorInReach(map, self.location, self.viewDir) {
                    Some(doorCoord) => {
                        map.OpenDoor(doorCoord);
                    },
                    None => {},
                }
            },
            doorCommand_t::NONE => {},
        }
    }

    /// Moves the weapon's animation on and, if the player fires, starts
    /// the firing clip and marks the enemy in sight as hit.
    fn UseWeapon(&mut self, fireWeapon: bool, map: &TileGrid, enemies: &mut Vec<Enemy>)
        requires
            old(self).wf(),
            map.wf(),
        ensures
            final(self).wf(),
            *final(self) == (Player { AM_weapon: final(self).AM_weapon, ..*old(self) }),
            final(self).AM_weapon@ == old(self).weapon_updated(fireWeapon),
            final(enemies)@.len() == old(enemies)@.len(),
            forall|i: int|
                0 <= i < old(enemies)@.len() ==> #[trigger] final(enemies)@[i] == if (if fireWeapon {
                    enemy_in_sight(
                        *map,
                        old(enemies)@,
                        sight_start(old(self).location, old(self).viewDir),
                    )
                } else {
                    None
                }) == Some(i) {
                    Enemy {
                        inputsBuffer: crate::enemy::EnemyInputsBuffer { damage: true },
                        ..old(enemies)@[i]
                    }
                } else {
                    old(enemies)@[i]
                },
    {
        self.AM_weapon.Update();
        if fireWeapon {
            self.AM_weapon.currClipIndex = 1;

            match FindEnemyInSight(map, enemies, self.location, self.viewDir) {
                Some(i) => {
                    enemies[i].inputsBuffer.damage = true;
                },
                None => {},
            }
        }
    }
}

/// A vector within `b`, turned by an angle, stays within twice `b`.
pub proof fn lemma_rotated_bound(v: Vec2, cos: int, sin: int, b: int)
    requires
        v.within(b),
        abs(cos) <= UNIT,
        abs(sin) <= UNIT,
        0 <= b <= VEC_LIMIT,
    ensures
        v.rotated(cos, sin).within(2 * b),
{
    let u = UNIT as int;
    let x = v.x as int;
    let y = v.y as int;
    assert(-(2 * b * u) <= x * cos - y * sin <= 2 * b * u && -(2 * b * u) <= x * sin + y * cos <= 2
        * b * u) by (nonlinear_arith)
        requires
            -b <= x <= b,
            -b <= y <= b,
            -u <= cos <= u,
            -u <= sin <= u,
            u > 0,
            b >= 0,
    ;
}

/// The door that the player opens in a tick, if any: the one in its reach
/// if it is told to open a door. `player` is the player after it walked
/// and turned.
pub open spec fn door_opened(map: TileGrid, inputsBuffer: InputsBuffer, player: Player) -> Option<(int, int)> {
    if inputsBuffer.doorCommand == doorCommand_t::OPEN {
        door_in_reach(map, sight_start(player.location, player.viewDir))
    } else {
        None
    }
}

/// The enemy that the player's shot hits in a tick, if any: the one in its
/// sight if it fires. `player` is the player after it walked and turned.
pub open spec fn enemy_shot(map: TileGrid, enemies: Seq<Enemy>, inputsBuffer: InputsBuffer, player: Player) -> Option<
    int,
> {
    if inputsBuffer.fireWeapon {
        enemy_in_sight(map, enemies, sight_start(player.location, player.viewDir))
    } else {
        None
    }
}

/// A vector within the limit, scaled by a factor within the limit, stays
/// within the limit if one of the two is at most one in magnitude.
pub proof fn lemma_scaled_bound(v: Vec2, k: i64)
    requires
        v.within(VEC_LIMIT as int),
        abs(k as int) <= VEC_LIMIT,
        v.within(UNIT as int) || abs(k as int) <= UNIT,
    ensures
        v.mul_spec(k).within(VEC_LIMIT as int),
        v.mul_spec(k).x == (v.x * k) / (UNIT as int),
        v.mul_spec(k).y == (v.y * k) / (UNIT as int),
{
    lemma_scaled_component(v.x as int, k as int);
    lemma_scaled_component(v.y as int, k as int);
}

/// A number within the limit, scaled by a factor within the limit, stays
/// within the limit if one of the two is at most one in magnitude.
pub proof fn lemma_scaled_component(x: int, k: int)
    requires
        abs(x) <= VEC_LIMIT,
        abs(k) <= VEC_LIMIT,
        abs(x) <= UNIT || abs(k) <= UNIT,
    ensures
        abs((x * k) / (UNIT as int)) <= VEC_LIMIT,
{
    let u = UNIT as int;
    let l = VEC_LIMIT as int;
    assert(-(l * u) <= x * k <= l * u) by (nonlinear_arith)
        requires
            -l <= x <= l,
            -l <= k <= l,
            -u <= x <= u || -u <= k <= u,
            u > 0,
            l > 0,
    ;
}

} // verus!
