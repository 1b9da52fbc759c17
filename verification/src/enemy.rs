use vstd::prelude::*;
use vstd::std_specs::ops::MulSpec;
use crate::animation::{AnimationClip, AnimationMagazine, AnimationReel, MagazineModel};
use crate::map::TileGrid;
use crate::multimedia::TextureType;
use crate::player::Player;
use crate::tiles::{Sprite, SpriteType, TextureHandle};
use crate::utils::conventions::{COORD_LIMIT, UNIT, VEC_LIMIT};
use crate::utils::vec2d::{dot, iPoint2, tile_center, tile_of_point, Dot, Point2, Vec2, Vec2D};

verus! {

#[derive(Copy, Clone, PartialEq, Eq, Structural, Debug)]
pub enum EnemyType {
    GUARD,
    OFFICER,
    SS,
}

impl EnemyType {
    /// The sheet that holds the textures of this kind of enemy.
    pub open spec fn sheet(self) -> TextureType {
        match self {
            EnemyType::GUARD => TextureType::GUARD,
            EnemyType::OFFICER => TextureType::OFFICER,
            EnemyType::SS => TextureType::SS,
        }
    }
}

/// What an enemy does.
#[derive(Copy, Clone, PartialEq, Eq, Structural, Debug)]
pub enum EnemyState {
    /// It wanders about.
    IDLE,
    /// It was hit and is about to lose health.
    DAMAGE,
    /// It is dead and does nothing any more.
    DEAD,
}

/// What happened to an enemy since its last update.
#[derive(Copy, Clone, PartialEq, Eq, Structural, Debug)]
pub struct EnemyInputsBuffer {
    pub damage: bool,
}

impl EnemyInputsBuffer {
    pub fn New() -> (b: Self)
        ensures
            b == (EnemyInputsBuffer { damage: false }),
    {
        Self { damage: false }
    }
}

/// Number of clips in the magazine of an enemy.
pub const ENEMY_CLIPS: usize = 11;

/// Number of clips that show a walking enemy, one for each direction from
/// which it can be seen. They come first in the magazine.
pub const WALK_CLIPS: u32 = 8;

/// The clip that shows an enemy taking a hit.
pub const DAMAGE_CLIP: u32 = 8;

/// The clip that shows an enemy dying.
pub const DEATH_CLIP: u32 = 9;

/// The clip that shows a dead enemy.
pub const CORPSE_CLIP: u32 = 10;

/// How long each texture of an enemy's reels is shown (about `0.3`).
pub const ENEMY_FRAME_TIME: i64 = 19661;

/// How far the timer of a walking or hit enemy moves per tick (about
/// `0.02`).
pub const ENEMY_TICK: i64 = 1311;

/// How far the timer of a dying enemy moves per tick (about `0.045`).
pub const ENEMY_DEATH_TICK: i64 = 2949;

/// The health of an enemy that was not hit yet.
pub const ENEMY_HEALTH: i32 = 150;

/// The health that one hit costs.
pub const HIT_DAMAGE: i32 = 20;

/// How far an enemy walks per tick (about `0.01` tiles).
pub const ENEMY_STEP: i64 = 655;

/// Cosine of an eighth of a half-turn (about `0.92388`).
pub const COS_PI_8: i64 = 60547;

/// Cosine of three eighths of a half-turn (about `0.38268`).
pub const COS_3PI_8: i64 = 25080;

/// Whether `clip` is a reel at its start that shows the textures of the
/// numbers `ids` on the sheet `sheet`, each for `ENEMY_FRAME_TIME`, with a
/// timer that moves by `tick` and a handover to `next`.
pub open spec fn is_enemy_reel(
    clip: AnimationClip,
    sheet: TextureType,
    ids: Seq<int>,
    tick: int,
    next: Option<u32>,
) -> bool {
    &&& clip matches AnimationClip::REEL(reel)
    &&& reel.textures@.len() == ids.len()
    &&& forall|k: int|
        0 <= k < ids.len() ==> #[trigger] reel.textures@[k] == (TextureHandle {
            textureType: sheet,
            ID: ids[k] as i32,
        })
    &&& reel.currTextureIndex == 0
    &&& reel.timer == 0
    &&& reel.timeInterval == ENEMY_FRAME_TIME
    &&& reel.perFrameTimeIncrement == tick
    &&& reel.loopbackClipIndex == next
}

/// Whether `m` is the magazine of an enemy that was just made, with its
/// textures on the sheet `sheet`: eight reels of four textures that show
/// it walking, seen from eight directions; a reel that shows it taking a
/// hit and hands over to the first clip; a reel that shows it dying and
/// hands over to the last clip; and a still of it dead.
pub open spec fn is_enemy_magazine(m: MagazineModel, sheet: TextureType) -> bool {
    &&& m.clips.len() == ENEMY_CLIPS
    &&& m.currClipIndex == 0
    &&& forall|i: int|
        0 <= i < WALK_CLIPS ==> is_enemy_reel(
            #[trigger] m.clips[i],
            sheet,
            seq![9 + i, 17 + i, 25 + i, 33 + i],
            ENEMY_TICK as int,
            None,
        )
    &&& is_enemy_reel(
        m.clips[DAMAGE_CLIP as int],
        sheet,
        seq![41int],
        ENEMY_TICK as int,
        Some(0u32),
    )
    &&& is_enemy_reel(
        m.clips[DEATH_CLIP as int],
        sheet,
        seq![42int, 43int, 44int, 45int],
        ENEMY_DEATH_TICK as int,
        Some(CORPSE_CLIP),
    )
    &&& m.clips[CORPSE_CLIP as int] == AnimationClip::STATIC(
        TextureHandle { textureType: sheet, ID: 45 },
    )
}

/// Whether `m` has the shape of an enemy's magazine: it is well formed and
/// holds eleven clips, of which the first eight are reels of four textures
/// and the next two are reels.
pub open spec fn enemy_magazine_shape(m: MagazineModel) -> bool {
    &&& m.wf()
    &&& m.clips.len() == ENEMY_CLIPS
    &&& forall|i: int|
        0 <= i < WALK_CLIPS ==> (#[trigger] m.clips[i] matches AnimationClip::REEL(reel)
            && reel.textures@.len() == 4)
    &&& m.clips[DAMAGE_CLIP as int] is REEL
    &&& m.clips[DEATH_CLIP as int] is REEL
}

/// The magazine of an enemy with its textures on the sheet `textureType`.
pub fn GenerateEnemyAnimationMagazine(textureType: TextureType) -> (AM: AnimationMagazine)
    ensures
        is_enemy_magazine(AM@, textureType),
        enemy_magazine_shape(AM@),
{
    let mut AM = AnimationMagazine::New(Vec::new(), 0);
    // Clips 0 - 7: walking, seen from each of eight directions.
    let mut i: i32 = 0;
    while i < 8
        invariant
            0 <= i <= 8,
            AM.currClipIndex == 0,
            AM.clips@.len() == i,
            forall|k: int|
                0 <= k < i ==> is_enemy_reel(
                    #[trigger] AM.clips@[k],
                    textureType,
                    seq![9 + k, 17 + k, 25 + k, 33 + k],
                    ENEMY_TICK as int,
                    None,
                ),
        decreases 8 - i,
    {
        let reel = AnimationReel::New(
            vec![
                TextureHandle::New(textureType, 9 + i),
                TextureHandle::New(textureType, 17 + i),
                TextureHandle::New(textureType, 25 + i),
                TextureHandle::New(textureType, 33 + i),
            ],
            ENEMY_FRAME_TIME,
            ENEMY_TICK,
            None,
        );
        AM.clips.push(AnimationClip::REEL(reel));
        i = i + 1;
    }

    // Clip 8: taking a hit.
    AM.clips.push(
        AnimationClip::REEL(
            AnimationReel::New(
                vec![TextureHandle::New(textureType, 41)],
                ENEMY_FRAME_TIME,
                ENEMY_TICK,
                Some(0),
            ),
        ),
    );

    // Clip 9: dying.
    AM.clips.push(
        AnimationClip::REEL(
            AnimationReel::New(
                vec![
                    TextureHandle::New(textureType, 42),
                    TextureHandle::New(textureType, 43),
                    TextureHandle::New(textureType, 44),
                    TextureHandle::New(textureType, 45),
                ],
                ENEMY_FRAME_TIME,
                ENEMY_DEATH_TICK,
                Some(CORPSE_CLIP),
            ),
        ),
    );

    // Clip 10: dead.
    AM.clips.push(AnimationClip::STATIC(TextureHandle::New(textureType, 45)));

    AM
}

/// An enemy: where it is and where it looks, how it is shown, what it does
/// and how much health it has left.
#[derive(Clone, Debug)]
pub struct Enemy {
    pub enemyType: EnemyType,
    pub location: Point2,
    pub tile: iPoint2,
    pub viewDir: Vec2,
    pub AM_enemySprites: AnimationMagazine,
    pub currState: EnemyState,
    pub inputsBuffer: EnemyInputsBuffer,
    pub health: i32,
}

/// The clip that shows a walking enemy as the player sees it. `ahead` is
/// the cosine of the angle between the directions in which the two look,
/// `aside` the cosine of the angle between the direction in which the
/// player looks and the enemy's right. The full turn is cut into eight
/// equal sectors about the directions at multiples of an eighth of a turn;
/// the sector that holds the player's direction, measured from the enemy's
/// right, picks the clip.
pub open spec fn facing_clip(ahead: int, aside: int) -> u32 {
    if ahead >= 0 {
        if aside > COS_PI_8 {
            2
        } else if aside > COS_3PI_8 {
            3
        } else if aside > -COS_3PI_8 {
            4
        } else if aside > -COS_PI_8 {
            5
        } else {
            6
        }
    } else {
        if aside < -COS_PI_8 {
            6
        } else if aside < -COS_3PI_8 {
            7
        } else if aside < COS_3PI_8 {
            0
        } else if aside < COS_PI_8 {
            1
        } else {
            2
        }
    }
}

pub fn FacingClip(ahead: i64, aside: i64) -> (clip: u32)
    ensures
        clip == facing_clip(ahead as int, aside as int),
        clip < WALK_CLIPS,
{
    if ahead >= 0 {
        if aside > COS_PI_8 {
            2
        } else if aside > COS_3PI_8 {
            3
        } else if aside > -COS_3PI_8 {
            4
        } else if aside > -COS_PI_8 {
            5
        } else {
            6
        }
    } else {
        if aside < -COS_PI_8 {
            6
        } else if aside < -COS_3PI_8 {
            7
        } else if aside < COS_3PI_8 {
            0
        } else if aside < COS_PI_8 {
            1
        } else {
            2
        }
    }
}

impl Enemy {
    /// The enemy is within the machine limits, its magazine has the shape
    /// of an enemy's magazine, and it has health left unless it is dead.
    pub open spec fn wf(self) -> bool {
        &&& self.location.within(COORD_LIMIT as int)
        &&& self.viewDir.within(UNIT as int)
        &&& enemy_magazine_shape(self.AM_enemySprites@)
        &&& self.currState != EnemyState::DEAD ==> self.health > 0
        &&& self.health > -HIT_DAMAGE
    }

    /// Whether this is an enemy of the kind `enemyType` that was just made
    /// in the middle of the tile in column `x` and row `y`, looking along
    /// `heading`.
    pub open spec fn is_fresh(self, enemyType: EnemyType, x: int, y: int, heading: Vec2) -> bool {
        &&& self.enemyType == enemyType
        &&& self.location == tile_center(x, y)
        &&& self.tile == (Vec2D { x: x as i32, y: y as i32 })
        &&& self.viewDir == heading
        &&& is_enemy_magazine(self.AM_enemySprites@, enemyType.sheet())
        &&& enemy_magazine_shape(self.AM_enemySprites@)
        &&& self.currState == EnemyState::IDLE
        &&& self.inputsBuffer == (EnemyInputsBuffer { damage: false })
        &&& self.health == ENEMY_HEALTH
    }

    /// The direction to the enemy's right: the direction in which it looks,
    /// turned clockwise by a quarter turn.
    pub open spec fn east(self) -> Vec2 {
        Vec2D { x: self.viewDir.y, y: (-self.viewDir.x) as i64 }
    }

    /// The clip that shows the enemy, if it walks, to a player who looks
    /// along `playerViewDir`.
    pub open spec fn facing(self, playerViewDir: Vec2) -> u32 {
        facing_clip(dot(playerViewDir, self.viewDir), dot(playerViewDir, self.east()))
    }

    /// A new enemy at full health, idle, with the first clip playing.
    pub fn New(enemyType: EnemyType, location: Point2, tile: iPoint2, viewDir: Vec2) -> (e: Self)
        ensures
            e.enemyType == enemyType,
            e.location == location,
            e.tile == tile,
            e.viewDir == viewDir,
            is_enemy_magazine(e.AM_enemySprites@, enemyType.sheet()),
            enemy_magazine_shape(e.AM_enemySprites@),
            e.currState == EnemyState::IDLE,
            e.inputsBuffer == (EnemyInputsBuffer { damage: false }),
            e.health == ENEMY_HEALTH,
    {
        let AM_enemySprites: AnimationMagazine = match enemyType {
            EnemyType::GUARD => GenerateEnemyAnimationMagazine(TextureType::GUARD),
            EnemyType::OFFICER => GenerateEnemyAnimationMagazine(TextureType::OFFICER),
            EnemyType::SS => GenerateEnemyAnimationMagazine(TextureType::SS),
        };

        Self {
            enemyType,
            location,
            tile,
            viewDir,
            AM_enemySprites,
            currState: EnemyState::IDLE,
            inputsBuffer: EnemyInputsBuffer::New(),
            health: ENEMY_HEALTH,
        }
    }

    /// Where the enemy would be after one step along its direction.
    pub open spec fn step_target(self) -> Point2 {
        Vec2D {
            x: (self.location.x + self.viewDir.mul_spec(ENEMY_STEP).x) as i64,
            y: (self.location.y + self.viewDir.mul_spec(ENEMY_STEP).y) as i64,
        }
    }

    /// Whether the enemy walks in this tick: it is idle, was not hit, and
    /// one of its walking clips plays.
    pub open spec fn walks(self) -> bool {
        &&& self.currState == EnemyState::IDLE
        &&& !self.inputsBuffer.damage
        &&& self.AM_enemySprites.currClipIndex < WALK_CLIPS
    }

    /// What the enemy does after this tick. An idle enemy that was hit
    /// turns to taking damage. An enemy that takes damage loses health and
    /// is idle again if it has health left, else dead.
    pub open spec fn next_state(self) -> EnemyState {
        match self.currState {
            EnemyState::IDLE => if self.inputsBuffer.damage {
                EnemyState::DAMAGE
            } else {
                EnemyState::IDLE
            },
            EnemyState::DAMAGE => if self.health - HIT_DAMAGE > 0 {
                EnemyState::IDLE
            } else {
                EnemyState::DEAD
            },
            EnemyState::DEAD => EnemyState::DEAD,
        }
    }

    /// The clip that plays at the end of this tick, before the animation
    /// moves on: an enemy that takes damage shows the hit if it has health
    /// left, else its death.
    pub open spec fn next_clip(self) -> u32 {
        if self.currState == EnemyState::DAMAGE {
            if self.health - HIT_DAMAGE > 0 {
                DAMAGE_CLIP
            } else {
                DEATH_CLIP
            }
        } else {
            self.AM_enemySprites.currClipIndex
        }
    }

    /// Whether `after` is this enemy one tick later, on the map `map`, with
    /// the player at `playerLoc`. A walking enemy has taken a step if it
    /// can stand where the step takes it, else it has turned to
    /// `freshDir`. The clip that plays has moved on by a tick.
    pub open spec fn updated_to(self, after: Enemy, map: TileGrid, playerLoc: Point2, freshDir: Vec2) -> bool {
        let steps = self.walks() && map.valid_enemy_location(self.step_target(), playerLoc);
        let turns = self.walks() && !map.valid_enemy_location(self.step_target(), playerLoc);
        &&& after.enemyType == self.enemyType
        &&& after.currState == self.next_state()
        &&& after.inputsBuffer.damage == (self.inputsBuffer.damage && self.currState
            != EnemyState::IDLE)
        &&& after.health == if self.currState == EnemyState::DAMAGE {
            self.health - HIT_DAMAGE
        } else {
            self.health as int
        }
        &&& after.location == if steps {
            self.step_target()
        } else {
            self.location
        }
        &&& after.tile == if steps {
            tile_of_point(self.step_target())
        } else {
            self.tile
        }
        &&& after.viewDir == if turns {
            freshDir
        } else {
            self.viewDir
        }
        &&& after.AM_enemySprites@ == (MagazineModel {
            currClipIndex: self.next_clip(),
            ..self.AM_enemySprites@
        }).updated()
    }

    /// Whether `after` is this enemy once it has turned to a player who
    /// looks along `playerViewDir`: if one of its walking clips plays and
    /// it is not the one that shows the enemy from the player's side, that
    /// one plays instead, from where the other was. Nothing else changes.
    pub open spec fn shown_to(self, after: Enemy, playerViewDir: Vec2) -> bool {
        &&& after.AM_enemySprites@ == if self.AM_enemySprites.currClipIndex < WALK_CLIPS
            && self.facing(playerViewDir) != self.AM_enemySprites.currClipIndex {
            self.AM_enemySprites@.switched_to(self.facing(playerViewDir) as int)
        } else {
            self.AM_enemySprites@
        }
        &&& after.enemyType == self.enemyType
        &&& after.location == self.location
        &&& after.tile == self.tile
        &&& after.viewDir == self.viewDir
        &&& after.currState == self.currState
        &&& after.inputsBuffer == self.inputsBuffer
        &&& after.health == self.health
    }

    /// The sprite that shows the enemy: the texture of the clip that
    /// plays, where the enemy is.
    pub open spec fn sprite(self) -> Sprite {
        Sprite {
            spriteType: SpriteType::ENEMY,
            textureHandle: self.AM_enemySprites@.current().texture(),
            location: self.location,
        }
    }

    /// Lets one tick pass for the enemy. A walking enemy takes a step if
    /// it can stand where the step takes it, else it turns to `freshDir`.
    pub fn Update(&mut self, map: &TileGrid, player: &Player, freshDir: Vec2)
        requires
            old(self).wf(),
            map.grid_ok(),
            freshDir.within(UNIT as int),
        ensures
            final(self).wf(),
            old(self).updated_to(*final(self), *map, player.location, freshDir),
    {
        match self.currState {
            EnemyState::IDLE => {
                if self.inputsBuffer.damage {
                    self.inputsBuffer.damage = false;
                    self.currState = EnemyState::DAMAGE;
                } else if self.AM_enemySprites.currClipIndex < WALK_CLIPS {
                    let proposedLocation: Point2 = self.location + self.viewDir * ENEMY_STEP;
                    let proposedTileCoord: iPoint2 = iPoint2::from(proposedLocation);
                    if map.ValidEnemyLocation(proposedLocation, player.location) {
                        self.location = proposedLocation;
                        self.tile = proposedTileCoord;
                    } else {
                        self.viewDir = freshDir;
                    }
                }
            },
            EnemyState::DAMAGE => {
                self.health -= HIT_DAMAGE;
                if self.health > 0 {
                    self.AM_enemySprites.currClipIndex = DAMAGE_CLIP;
                    self.currState = EnemyState::IDLE;
                } else {
                    self.AM_enemySprites.currClipIndex = DEATH_CLIP;
                    self.currState = EnemyState::DEAD;
                }
            },
            EnemyState::DEAD => {
                // The dead stay dead.
            },
        }

        self.AM_enemySprites.Update();
    }

    /// The sprite that shows the enemy to a player who looks along
    /// `playerViewDir`. A walking enemy first switches to the clip that
    /// shows it from the player's side.
    pub fn CalculateSprite(&mut self, playerViewDir: Vec2) -> (sprite: Sprite)
        requires
            old(self).wf(),
            playerViewDir.within(VEC_LIMIT as int),
        ensures
            final(self).wf(),
            old(self).shown_to(*final(self), playerViewDir),
            sprite == final(self).sprite(),
    {
        let enemyViewDir: Vec2 = self.viewDir;
        let enemyEastDir: Vec2 = Vec2::New(self.viewDir.y, -self.viewDir.x);

        let playerViewDotEnemyView: i64 = Dot(playerViewDir, enemyViewDir);
        let playerViewDotEnemyEast: i64 = Dot(playerViewDir, enemyEastDir);

        let angleCorrectClipIndex: u32 = FacingClip(playerViewDotEnemyView, playerViewDotEnemyEast);

        let currClipIndex: u32 = self.AM_enemySprites.currClipIndex;
        if currClipIndex < WALK_CLIPS && angleCorrectClipIndex != currClipIndex {
            self.AM_enemySprites.SwitchClipIndexWithTimeCopy(angleCorrectClipIndex as usize);
        }

        let textureHandle: TextureHandle = self.AM_enemySprites.GetCurrTexture();

        Sprite { spriteType: SpriteType::ENEMY, textureHandle, location: self.location }
    }
}

} // verus!
