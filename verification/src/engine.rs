pub mod cast;
pub mod harvest;
pub mod sprites;
pub mod walls;

use vstd::prelude::*;
use crate::enemy::Enemy;
use crate::engine::cast::{
    cast_columns, frame_of, fresh_frame, lemma_cast_columns_len, marks_fit, marks_of,
    stands_in_doorway, FrameModel, NewHitMap, RenderIntoBuffers,
};
use crate::engine::sprites::{
    projected_sprites, sorted_by_height, sprite_commands, DrawSpritesFromBuffer, SpriteRenderData,
};
use crate::engine::walls::{
    ceiling_and_floor, wall_commands, wall_heights, DrawCeilingAndFloor, DrawWallsFromBuffer,
    NewHeights,
};
use crate::inputs_buffer::{InputEvent, InputsBuffer, KeyboardState};
use crate::map::{grid_out_of_range, grid_too_large, TileGrid};
use crate::multimedia::{DrawCommand, MAX_SCREEN_DIM, RenderParams, WindowParams};
use crate::player::Player;
use crate::tiles::{Sprite, WallSlice};
use crate::utils::conventions::{UNIT, VEC_LIMIT};
use crate::utils::csv::{grid_cells, MapError, TileCodeGrid};
use crate::utils::vec2d::{tile_of_point, iPoint2, Point2, Vec2, Vec2D};

verus! {

/// Whether `after` is the enemy `before` one tick later: it has done what
/// it does in a tick, on the map `map` and with `freshDir` to turn to, and
/// has then turned to show itself to the player.
pub open spec fn enemy_ticked(before: Enemy, after: Enemy, map: TileGrid, player: Player, freshDir: Vec2) -> bool {
    exists|mid: Enemy| #[trigger]
        before.updated_to(mid, map, player.location, freshDir) && mid.shown_to(after, player.viewDir)
}

/// The sprites of those of the first `n` enemies that stand in column `x`
/// and row `y`, in the order of the enemies.
pub open spec fn placed_sprites(enemies: Seq<Enemy>, x: int, y: int, n: int) -> Seq<Sprite>
    decreases n,
{
    if n <= 0 {
        Seq::<Sprite>::empty()
    } else {
        let before = placed_sprites(enemies, x, y, n - 1);
        let tile = tile_of_point(enemies[n - 1].location);
        if tile.x == x && tile.y == y {
            before.push(enemies[n - 1].sprite())
        } else {
            before
        }
    }
}

/// The sprites placed by the first `n` enemies are the same for two lists
/// of enemies that agree on their first `n`.
pub proof fn lemma_placed_sprites_prefix(a: Seq<Enemy>, b: Seq<Enemy>, x: int, y: int, n: int)
    requires
        0 <= n <= a.len(),
        n <= b.len(),
        forall|i: int| 0 <= i < n ==> a[i] == b[i],
    ensures
        placed_sprites(a, x, y, n) == placed_sprites(b, x, y, n),
    decreases n,
{
    if n > 0 {
        lemma_placed_sprites_prefix(a, b, x, y, n - 1);
    }
}

/// Whether `after` and `mapAfter` are the enemies `before` and the map
/// `mapBefore` after a tick of the enemies: every enemy is one tick
/// later, and every empty tile has got the sprites of the enemies that
/// stand in it, in the order of the enemies. Nothing else has changed.
pub open spec fn enemies_updated(
    before: Seq<Enemy>,
    after: Seq<Enemy>,
    mapBefore: TileGrid,
    mapAfter: TileGrid,
    player: Player,
    freshDirs: Seq<Vec2>,
) -> bool {
    &&& after.len() == before.len()
    &&& forall|i: int|
        0 <= i < before.len() ==> enemy_ticked(
            before[i],
            #[trigger] after[i],
            mapBefore,
            player,
            freshDirs[i],
        )
    &&& mapAfter.same_kinds(mapBefore)
    &&& mapAfter.doorTileCoords == mapBefore.doorTileCoords
    &&& forall|x: int, y: int|
        mapBefore.in_grid(x, y) ==> #[trigger] mapAfter.tile_at(x, y) == mapBefore.tile_at(
            x,
            y,
        ).with_sprites(placed_sprites(after, x, y, after.len() as int))
}

/// Lets one tick pass for every enemy and puts the sprite of each into the
/// tile in which it stands, if that is an empty tile. The enemy `i` turns
/// to `freshDirs[i]` if it cannot go on.
pub fn UpdateEnemies(enemies: &mut Vec<Enemy>, map: &mut TileGrid, player: &Player, freshDirs: &Vec<Vec2>)
    requires
        forall|i: int| 0 <= i < old(enemies)@.len() ==> (#[trigger] old(enemies)@[i]).wf(),
        old(map).wf(),
        player.wf(),
        freshDirs@.len() == old(enemies)@.len(),
        forall|i: int| 0 <= i < freshDirs@.len() ==> (#[trigger] freshDirs@[i]).within(UNIT as int),
    ensures
        forall|i: int| 0 <= i < final(enemies)@.len() ==> (#[trigger] final(enemies)@[i]).wf(),
        final(map).wf(),
        enemies_updated(old(enemies)@, final(enemies)@, *old(map), *final(map), *player, freshDirs@),
{
    let mut i: usize = 0;
    while i < enemies.len()
        invariant
            0 <= i <= enemies@.len() == old(enemies)@.len() == freshDirs@.len(),
            player.wf(),
            forall|k: int| 0 <= k < freshDirs@.len() ==> (#[trigger] freshDirs@[k]).within(UNIT as int),
            forall|k: int| 0 <= k < enemies@.len() ==> (#[trigger] enemies@[k]).wf(),
            forall|k: int| i <= k < enemies@.len() ==> enemies@[k] == old(enemies)@[k],
            forall|k: int|
                0 <= k < i ==> enemy_ticked(
                    old(enemies)@[k],
                    #[trigger] enemies@[k],
                    *old(map),
                    *player,
                    freshDirs@[k],
                ),
            map.wf(),
            map.same_kinds(*old(map)),
            map.doorTileCoords == old(map).doorTileCoords,
            forall|x: int, y: int|
                old(map).in_grid(x, y) ==> #[trigger] map.tile_at(x, y) == old(map).tile_at(
                    x,
                    y,
                ).with_sprites(placed_sprites(enemies@, x, y, i as int)),
        decreases enemies@.len() - i,
    {
        let ghost enemiesBefore = enemies@;
        let ghost before = enemies@[i as int];
        enemies[i].Update(map, player, freshDirs[i]);
        let ghost mid = enemies@[i as int];
        // Get enemy location and insert sprite into appropriate tile
        let tileCoord: iPoint2 = iPoint2::from(enemies[i].location);
        let sprite: Sprite = enemies[i].CalculateSprite(player.viewDir);
        if map.Contains(tileCoord) {
            map.AddSprite(tileCoord, sprite);
        }
        proof {
            assert(before.updated_to(mid, *old(map), player.location, freshDirs@[i as int]));
            assert forall|x: int, y: int| old(map).in_grid(x, y) implies #[trigger] map.tile_at(x, y)
                == old(map).tile_at(x, y).with_sprites(placed_sprites(enemies@, x, y, i + 1))
                && map.tile_at(x, y).same_kind(old(map).tile_at(x, y)) by {
                lemma_placed_sprites_prefix(enemies@, enemiesBefore, x, y, i as int);
            }
        }
        i = i + 1;
    }
}

/// How far a door moves in a second (about `1.2`): `0.02` per tick at
/// sixty ticks a second.
pub const DOOR_MOVE_PER_SECOND: i64 = 78643;

/// How far the timer of an open door runs down in a second (about `0.6`).
pub const DOOR_TIMER_PER_SECOND: i64 = 39322;

/// How far the player walks in a second (about `4.8` tiles).
pub const PLAYER_MOVE_PER_SECOND: i64 = 314573;

/// Where the player starts: the middle of the tile in column one and row
/// one.
pub const PLAYER_START: i64 = 98304;

/// An amount per second as an amount per tick, at `refreshRate` ticks a
/// second.
pub open spec fn per_tick(perSecond: int, refreshRate: int) -> int {
    perSecond / refreshRate
}

pub fn PerTick(perSecond: i64, refreshRate: usize) -> (r: i64)
    requires
        0 <= perSecond <= VEC_LIMIT,
        refreshRate > 0,
    ensures
        r == per_tick(perSecond as int, refreshRate as int),
        0 <= r <= perSecond,
{
    proof {
        if refreshRate > perSecond {
            vstd::arithmetic::div_mod::lemma_basic_div(perSecond as int, refreshRate as int);
        }
    }
    if refreshRate > 2147483648 {
        0
    } else {
        perSecond / (refreshRate as i64)
    }
}

/// The game: the player, the map and the enemies, the commands of the
/// tick, the speeds that the refresh rate gives, and what a frame is
/// built from.
#[derive(Debug)]
pub struct GameEngine {
    pub inputsBuffer: InputsBuffer,
    pub player: Player,
    pub map: TileGrid,
    pub windowParams: WindowParams,
    pub renderParams: RenderParams,
    // Time related
    pub doorMoveIncr: i64,
    pub doorTimerIncr: i64,
    pub playerMoveIncr: i64,
    // Render related
    pub wallSlicesBuffer: Vec<Option<WallSlice>>,
    pub spritesBuffer: Vec<Sprite>,
    pub spritesRenderDataBuffer: Vec<SpriteRenderData>,
    pub wallRenderHeights: Vec<i32>,
    pub spriteTileHitMap: Vec<Vec<bool>>,
    // Enemy related
    pub enemies: Vec<Enemy>,
}

impl GameEngine {
    /// Everything the game holds is well formed and fits together: the
    /// window is within the limits, there is an angle and a height for each
    /// of its columns and a mark for each tile of the map, and the speeds
    /// are within the limits.
    pub open spec fn wf(self) -> bool {
        &&& self.player.wf()
        &&& self.map.wf()
        &&& self.windowParams.width <= MAX_SCREEN_DIM
        &&& self.windowParams.height <= MAX_SCREEN_DIM
        &&& self.renderParams.wf(self.windowParams.width as int)
        &&& self.wallRenderHeights@.len() == self.windowParams.width
        &&& marks_fit(self.spriteTileHitMap@, self.map.width as int, self.map.height as int)
        &&& forall|i: int| 0 <= i < self.enemies@.len() ==> (#[trigger] self.enemies@[i]).wf()
        &&& 0 <= self.doorMoveIncr <= VEC_LIMIT
        &&& 0 <= self.doorTimerIncr <= VEC_LIMIT
        &&& 0 <= self.playerMoveIncr <= VEC_LIMIT
    }

    /// The frame that the game holds.
    pub open spec fn frame(self) -> FrameModel {
        frame_of(self.map, self.spriteTileHitMap@, self.spritesBuffer@)
    }

    /// Sets up a game in a window of the given size, on the map that the
    /// table `grid` asks for. The display shows `refreshRate` frames a
    /// second, and the enemies look along the headings of `headings` at
    /// first, one after the other.
    pub fn Init(
        windowWidth: usize,
        windowHeight: usize,
        renderParams: RenderParams,
        refreshRate: usize,
        grid: &TileCodeGrid,
        headings: &Vec<Vec2>,
    ) -> (r: Result<Self, MapError>)
        requires
            windowWidth <= MAX_SCREEN_DIM,
            windowHeight <= MAX_SCREEN_DIM,
            renderParams.wf(windowWidth as int),
            refreshRate > 0,
            forall|i: int| 0 <= i < headings@.len() ==> (#[trigger] headings@[i]).within(UNIT as int),
        ensures
            match r {
                Ok(engine) => {
                    &&& engine.wf()
                    &&& !grid_too_large(*grid)
                    &&& !grid_out_of_range(*grid)
                    &&& engine.map.loaded_from(engine.enemies@, *grid, headings@)
                    &&& engine.windowParams == (WindowParams { width: windowWidth, height: windowHeight })
                    &&& engine.renderParams == renderParams
                    &&& engine.player.is_new(Vec2D { x: PLAYER_START, y: PLAYER_START }, refreshRate)
                    &&& engine.doorMoveIncr == per_tick(DOOR_MOVE_PER_SECOND as int, refreshRate as int)
                    &&& engine.doorTimerIncr == per_tick(
                        DOOR_TIMER_PER_SECOND as int,
                        refreshRate as int,
                    )
                    &&& engine.playerMoveIncr == per_tick(
                        PLAYER_MOVE_PER_SECOND as int,
                        refreshRate as int,
                    )
                    &&& engine.inputsBuffer == InputsBuffer::fresh()
                    &&& engine.wallSlicesBuffer@.len() == 0
                    &&& engine.spritesBuffer@.len() == 0
                    &&& engine.spritesRenderDataBuffer@.len() == 0
                    &&& engine.wallRenderHeights@ == Seq::new(windowWidth as nat, |i: int| 0i32)
                    &&& engine.frame() == fresh_frame(engine.map@)
                },
                Err(e) => if grid_too_large(*grid) {
                    e == MapError::TooLarge
                } else {
                    e == MapError::TextureOutOfRange && grid_out_of_range(*grid)
                },
            },
    {
        let inputsBuffer = InputsBuffer::New();
        let player = Player::New(Point2::New(PLAYER_START, PLAYER_START), refreshRate);
        match TileGrid::LoadFromCSV(grid, headings) {
            Err(e) => Err(e),
            Ok((map, enemies)) => {
                let doorMoveIncr: i64 = PerTick(DOOR_MOVE_PER_SECOND, refreshRate);
                let doorTimerIncr: i64 = PerTick(DOOR_TIMER_PER_SECOND, refreshRate);
                let playerMoveIncr: i64 = PerTick(PLAYER_MOVE_PER_SECOND, refreshRate);

                let wallRenderHeights: Vec<i32> = NewHeights(windowWidth);
                let spriteTileHitMap: Vec<Vec<bool>> = NewHitMap(map.width as usize, map.height as usize);
                proof {
                    let fresh = fresh_frame(map@);
                    let marks = marks_of(spriteTileHitMap@);
                    assert(marks =~= fresh.harvested);
                    assert forall|i: int| 0 <= i < enemies@.len() implies (#[trigger] enemies@[i]).wf() by {
                        crate::map::lemma_spawns_in_grid(
                            grid_cells(*grid),
                            map.width as int,
                            map.height as int,
                            map.width as int,
                            i,
                        );
                    }
                }
                Ok(
                    Self {
                        inputsBuffer,
                        player,
                        map,
                        windowParams: WindowParams { width: windowWidth, height: windowHeight },
                        renderParams,
                        doorMoveIncr,
                        doorTimerIncr,
                        playerMoveIncr,
                        wallSlicesBuffer: Vec::new(),
                        spritesBuffer: Vec::new(),
                        spritesRenderDataBuffer: Vec::new(),
                        wallRenderHeights,
                        spriteTileHitMap,
                        enemies,
                    },
                )
            },
        }
    }

    /// Takes in what the input devices reported in one tick.
    pub fn ReadInputs(&mut self, events: &Vec<InputEvent>, mouseAtRest: bool, keys: &KeyboardState)
        ensures
            *final(self) == (GameEngine {
                inputsBuffer: old(self).inputsBuffer.updated(events@, mouseAtRest, *keys),
                ..*old(self)
            }),
    {
        self.inputsBuffer.Update(events, mouseAtRest, keys);
    }
}

/// Whether a list of directions holds one for each of `n` enemies, none of
/// them longer than one.
pub open spec fn dirs_fit(freshDirs: Seq<Vec2>, n: int) -> bool {
    &&& freshDirs.len() == n
    &&& forall|i: int| 0 <= i < freshDirs.len() ==> (#[trigger] freshDirs[i]).within(UNIT as int)
}

impl GameEngine {
    /// Whether `after` is this game one tick later, by way of the enemies
    /// `enemies1` and the maps `map1` and `map2`. First the enemies take
    /// their tick, which gives `enemies1` and `map1`. Then the player
    /// takes its tick, which gives the enemies of `after` and `map2`.
    /// Last the doors take theirs, with the player where it is then. What
    /// a frame is built from, and the commands, stay as they are.
    pub open spec fn updated_via(
        self,
        after: GameEngine,
        enemies1: Seq<Enemy>,
        map1: TileGrid,
        map2: TileGrid,
        turn: Vec2,
        freshDirs: Seq<Vec2>,
    ) -> bool {
        &&& enemies_updated(self.enemies@, enemies1, self.map, map1, self.player, freshDirs)
        &&& self.player.updated_to(
            after.player,
            self.inputsBuffer,
            map1,
            map2,
            enemies1,
            after.enemies@,
            self.playerMoveIncr,
            turn,
        )
        &&& map2.doors_ticked_to(after.map, self.doorMoveIncr, self.doorTimerIncr, after.player.location)
        &&& after.inputsBuffer == self.inputsBuffer
        &&& after.windowParams == self.windowParams
        &&& after.renderParams == self.renderParams
        &&& after.doorMoveIncr == self.doorMoveIncr
        &&& after.doorTimerIncr == self.doorTimerIncr
        &&& after.playerMoveIncr == self.playerMoveIncr
        &&& after.wallSlicesBuffer == self.wallSlicesBuffer
        &&& after.spritesBuffer == self.spritesBuffer
        &&& after.spritesRenderDataBuffer == self.spritesRenderDataBuffer
        &&& after.wallRenderHeights == self.wallRenderHeights
        &&& after.spriteTileHitMap == self.spriteTileHitMap
    }

    /// Lets one tick pass for every enemy.
    pub fn UpdateEnemies(&mut self, freshDirs: &Vec<Vec2>)
        requires
            old(self).wf(),
            dirs_fit(freshDirs@, old(self).enemies@.len() as int),
        ensures
            final(self).wf(),
            enemies_updated(
                old(self).enemies@,
                final(self).enemies@,
                old(self).map,
                final(self).map,
                old(self).player,
                freshDirs@,
            ),
            *final(self) == (GameEngine {
                enemies: final(self).enemies,
                map: final(self).map,
                ..*old(self)
            }),
    {
        UpdateEnemies(&mut self.enemies, &mut self.map, &self.player, freshDirs);
    }

    /// Lets one tick pass for the game: for the enemies, the player and
    /// the doors, in this order. `turn` holds the cosine and the sine of
    /// the angle by which the player turns if it turns; the enemy `i`
    /// turns to `freshDirs[i]` if it cannot go on.
    pub fn Update(&mut self, turn: Vec2, freshDirs: &Vec<Vec2>)
        requires
            old(self).wf(),
            turn.within(UNIT as int),
            dirs_fit(freshDirs@, old(self).enemies@.len() as int),
        ensures
            final(self).wf(),
            exists|enemies1: Seq<Enemy>, map1: TileGrid, map2: TileGrid| #[trigger]
                old(self).updated_via(*final(self), enemies1, map1, map2, turn, freshDirs@),
    {
        self.UpdateEnemies(freshDirs);
        let ghost enemies1 = self.enemies@;
        let ghost map1 = self.map;
        self.player.Update(
            &self.inputsBuffer,
            &mut self.map,
            &mut self.enemies,
            self.playerMoveIncr,
            turn,
        );
        let ghost map2 = self.map;
        self.map.UpdateDoors(self.doorMoveIncr, self.doorTimerIncr, self.player.location);
        proof {
            assert(old(self).updated_via(*self, enemies1, map1, map2, turn, freshDirs@));
        }
    }
}

impl GameEngine {
    /// Whether `after` is this game once a frame was rendered, and
    /// `commands` what there is to draw for it. The rays of all screen
    /// columns were cast from where the player is, which gathered the
    /// sprites of the tiles in sight. The frame is the ceiling and the
    /// floor, then the walls, column by column, then the sprites, the
    /// farthest first; a sprite is drawn only where no wall is nearer.
    /// The player, the enemies and the commands of the tick stay as they
    /// are, and every tile stays of its kind.
    pub open spec fn rendered_to(self, after: GameEngine, commands: Seq<DrawCommand>) -> bool {
        let k = self.renderParams.renderHeightProprConst as int;
        let angles = self.renderParams.castingRayAngles@;
        &&& (after.frame(), after.wallSlicesBuffer@) == cast_columns(
            fresh_frame(self.map@),
            self.player.location,
            self.player.viewDir,
            stands_in_doorway(self.map, self.player.location),
            angles,
            angles.len() as int,
        )
        &&& after.wallRenderHeights@ == wall_heights(after.wallSlicesBuffer@, k, angles)
        &&& after.spritesRenderDataBuffer@ == sorted_by_height(
            projected_sprites(
                after.spritesBuffer@,
                self.player.location,
                self.player.viewDir,
                self.player.east,
                self.renderParams.projPlaneDist as int,
                k,
                self.windowParams,
                after.spritesBuffer@.len() as int,
            ),
        )
        &&& commands == ceiling_and_floor(self.windowParams) + wall_commands(
            after.wallSlicesBuffer@,
            k,
            angles,
            self.windowParams.height as int,
            self.windowParams.width as int,
        ) + sprite_commands(
            after.spritesRenderDataBuffer@,
            after.wallRenderHeights@,
            self.windowParams.width as int,
            after.spritesRenderDataBuffer@.len() as int,
        )
        &&& after.map.same_kinds(self.map)
        &&& after.map.doorTileCoords == self.map.doorTileCoords
        &&& after.player == self.player
        &&& after.enemies == self.enemies
        &&& after.inputsBuffer == self.inputsBuffer
        &&& after.windowParams == self.windowParams
        &&& after.renderParams == self.renderParams
        &&& after.doorMoveIncr == self.doorMoveIncr
        &&& after.doorTimerIncr == self.doorTimerIncr
        &&& after.playerMoveIncr == self.playerMoveIncr
    }

    /// Renders a frame and says what there is to draw for it, in the order
    /// in which it is to be drawn.
    pub fn RenderFrame(&mut self) -> (commands: Vec<DrawCommand>)
        requires
            old(self).wf(),
        ensures
            final(self).wf(),
            old(self).rendered_to(*final(self), commands@),
    {
        let mut commands: Vec<DrawCommand> = Vec::new();
        DrawCeilingAndFloor(self.windowParams, &mut commands);
        RenderIntoBuffers(
            &mut self.map,
            &mut self.spriteTileHitMap,
            &mut self.spritesBuffer,
            &mut self.wallSlicesBuffer,
            self.player.location,
            self.player.viewDir,
            &self.renderParams.castingRayAngles,
        );
        proof {
            lemma_cast_columns_len(
                fresh_frame(old(self).map@),
                self.player.location,
                self.player.viewDir,
                stands_in_doorway(old(self).map, self.player.location),
                self.renderParams.castingRayAngles@,
                self.renderParams.castingRayAngles@.len() as int,
            );
        }
        DrawWallsFromBuffer(
            &self.wallSlicesBuffer,
            &self.renderParams,
            self.windowParams,
            &mut self.wallRenderHeights,
            &mut commands,
        );
        DrawSpritesFromBuffer(
            &self.spritesBuffer,
            &mut self.spritesRenderDataBuffer,
            self.player.location,
            self.player.viewDir,
            self.player.east,
            &self.renderParams,
            self.windowParams,
            &self.wallRenderHeights,
            &mut commands,
        );
        commands
    }
}

} // verus!
