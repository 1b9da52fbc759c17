use vstd::prelude::*;
use crate::multimedia::{light_texture, LightTexture, Rect, TextureType};
use crate::utils::conventions::{TEXTURE_PITCH, UNIT, VEC_LIMIT};
use crate::utils::dda::{wall_type_at, width_percent_at, CursorModel, RayCursor};
use crate::utils::vec2d::Point2;

verus! {

/// Names one texture: a sheet and the number of the texture on it.
#[derive(Copy, Clone, PartialEq, Eq, Structural, Debug)]
pub struct TextureHandle {
    pub textureType: TextureType,
    pub ID: i32,
}

impl TextureHandle {
    pub fn New(textureType: TextureType, ID: i32) -> (h: Self)
        ensures
            h == (TextureHandle { textureType, ID }),
    {
        Self { textureType, ID }
    }
}

/// One screen column's worth of wall: the texture, the column of it to
/// show, and how far along the ray the wall was met.
#[derive(Copy, Clone, PartialEq, Eq, Structural, Debug)]
pub struct WallSlice {
    pub textureHandle: TextureHandle,
    pub textureRect: Rect,
    pub dist: i64,
}

#[derive(Copy, Clone, PartialEq, Eq, Structural, Debug)]
pub enum SpriteType {
    OBJECT,
    ENEMY,
}

/// A flat image that always faces the viewer.
#[derive(Copy, Clone, Debug)]
pub struct Sprite {
    pub spriteType: SpriteType,
    pub textureHandle: TextureHandle,
    pub location: Point2,
}

/// Lit texture of a door's leaf.
pub const LEAF_LIT_TEXTURE: i32 = 99;

/// Unlit texture of a door's leaf.
pub const LEAF_UNLIT_TEXTURE: i32 = 100;

/// How far a door must have retracted for the doorway to be passable: a
/// door blocks movement while its position exceeds this (about `0.2`).
pub const DOOR_CLEARANCE: i64 = 13107;

/// The texture column, counted in texels, that shows the point `w` subunits
/// along a face.
pub open spec fn texture_column(w: int) -> int {
    (w * TEXTURE_PITCH) / (UNIT as int)
}

/// The one-texel-wide column of a texture at `w` subunits along a face.
pub open spec fn column_rect(w: int) -> Rect {
    Rect { x: texture_column(w) as i32, y: 0, w: 1, h: TEXTURE_PITCH as u32 }
}

pub fn ColumnRect(w: i64) -> (r: Rect)
    requires
        0 <= w <= 2 * UNIT,
    ensures
        r == column_rect(w as int),
        0 <= r.x <= 2 * TEXTURE_PITCH,
        w < UNIT ==> r.x < TEXTURE_PITCH,
{
    let x: i64 = (w * 64) / UNIT;
    Rect::New(x as i32, 0, 1, 64)
}

/// A solid tile. It stops every ray and every walker.
#[derive(Copy, Clone, PartialEq, Eq, Structural, Debug)]
pub struct Wall {
    pub litTextureHandle: TextureHandle,
    pub unlitTextureHandle: TextureHandle,
}

impl Wall {
    pub fn New(litTextureID: i32, unlitTextureID: i32) -> (w: Self)
        ensures
            w.litTextureHandle == (TextureHandle { textureType: TextureType::WALL, ID: litTextureID }),
            w.unlitTextureHandle == (TextureHandle {
                textureType: TextureType::WALL,
                ID: unlitTextureID,
            }),
    {
        Self {
            litTextureHandle: TextureHandle::New(TextureType::WALL, litTextureID),
            unlitTextureHandle: TextureHandle::New(TextureType::WALL, unlitTextureID),
        }
    }

    /// What a ray shows of this wall when its cursor stands at `c`: the lit
    /// or unlit texture by the face that was hit, the column at the hit
    /// point's offset along the face, and the distance of the hit point.
    pub open spec fn wall_slice(self, c: CursorModel) -> WallSlice {
        WallSlice {
            textureHandle: light_texture(
                wall_type_at(c.px, c.py),
                self.litTextureHandle,
                self.unlitTextureHandle,
            ),
            textureRect: column_rect(width_percent_at(c.px, c.py)),
            dist: c.dist() as i64,
        }
    }

    pub fn GetWallSlice(&self, rayCursor: &mut RayCursor) -> (slice: WallSlice)
        requires
            old(rayCursor).wf(),
            old(rayCursor).on_face(),
        ensures
            slice == self.wall_slice(old(rayCursor)@),
            *final(rayCursor) == old(rayCursor).recalled(),
            final(rayCursor).same_place(*old(rayCursor)),
    {
        let textureHandle = LightTexture(rayCursor, self.litTextureHandle, self.unlitTextureHandle);
        let widthPercent: i64 = rayCursor.GetWidthPercent();
        let textureRect = ColumnRect(widthPercent);
        let dist: i64 = rayCursor.GetDistToHitPoint();

        WallSlice { textureHandle, textureRect, dist }
    }

    /// A wall always answers a ray with a slice of itself.
    pub fn RayTileHit(&self, rayCursor: &mut RayCursor) -> (hit: Option<WallSlice>)
        requires
            old(rayCursor).wf(),
            old(rayCursor).on_face(),
        ensures
            hit == Some(self.wall_slice(old(rayCursor)@)),
            hit.is_some(),
            *final(rayCursor) == old(rayCursor).recalled(),
            final(rayCursor).same_place(*old(rayCursor)),
    {
        Some(self.GetWallSlice(rayCursor))
    }

    /// A wall always stops a walker.
    pub fn PlayerTileHit() -> (hit: bool)
        ensures
            hit,
    {
        true
    }
}

/// Where a door is in its cycle.
#[derive(Copy, Clone, PartialEq, Eq, Structural, Debug)]
pub enum DoorStatus {
    OPEN,
    CLOSED,
    OPENING,
    CLOSING,
}

impl DoorStatus {
    /// The status that comes next in the cycle
    /// closed, opening, open, closing, closed.
    pub open spec fn next(self) -> DoorStatus {
        match self {
            DoorStatus::CLOSED => DoorStatus::OPENING,
            DoorStatus::OPENING => DoorStatus::OPEN,
            DoorStatus::OPEN => DoorStatus::CLOSING,
            DoorStatus::CLOSING => DoorStatus::CLOSED,
        }
    }
}

/// The two end positions of a door.
#[derive(Copy, Clone, PartialEq, Eq, Structural, Debug)]
pub enum DoorPosition {
    OPEN,
    CLOSED,
}

impl DoorPosition {
    /// The position as a fraction of the doorway that the leaf covers.
    pub open spec fn value(self) -> int {
        match self {
            DoorPosition::OPEN => 0,
            DoorPosition::CLOSED => UNIT as int,
        }
    }

    pub fn Value(self) -> (v: i64)
        ensures
            v == self.value(),
    {
        match self {
            DoorPosition::OPEN => 0,
            DoorPosition::CLOSED => UNIT,
        }
    }
}

/// The two end values of a door's timer.
#[derive(Copy, Clone, PartialEq, Eq, Structural, Debug)]
pub enum DoorTimerVal {
    NO_TIME_LEFT,
    FULL_TIME_LEFT,
}

impl DoorTimerVal {
    /// The timer value as a fraction of the time a door stays open.
    pub open spec fn value(self) -> int {
        match self {
            DoorTimerVal::NO_TIME_LEFT => 0,
            DoorTimerVal::FULL_TIME_LEFT => UNIT as int,
        }
    }

    pub fn Value(self) -> (v: i64)
        ensures
            v == self.value(),
    {
        match self {
            DoorTimerVal::NO_TIME_LEFT => 0,
            DoorTimerVal::FULL_TIME_LEFT => UNIT,
        }
    }
}

/// `v` held within `[0, UNIT]`.
pub open spec fn clamp_unit(v: int) -> int {
    if v < 0 {
        0
    } else if v > UNIT {
        UNIT as int
    } else {
        v
    }
}

/// A sliding door. `position` is the fraction of the doorway that the leaf
/// covers, from `0` (fully open) to `UNIT` (fully closed); `timerVal` is the
/// fraction of its open time that an open door has left.
#[derive(Copy, Clone, PartialEq, Eq, Structural, Debug)]
pub struct Door {
    pub position: i64,
    pub status: DoorStatus,
    pub timerVal: i64,
}

/// What one tick feeds to a door.
#[derive(Copy, Clone, PartialEq, Eq, Structural, Debug)]
pub struct DoorTick {
    pub moveIncr: i64,
    pub timerIncr: i64,
    pub playerInsideDoor: bool,
}

impl DoorTick {
    /// The timer runs down, by an amount within the machine limits.
    pub open spec fn fits(self) -> bool {
        0 <= self.timerIncr <= VEC_LIMIT
    }
}

impl Door {
    /// The position is a fraction, a closed door is fully closed and an
    /// open door fully open. The timer is within the machine limits, far
    /// enough from them for an open door to run it down once more.
    pub open spec fn wf(self) -> bool {
        &&& 0 <= self.position <= UNIT
        &&& -2 * VEC_LIMIT <= self.timerVal <= VEC_LIMIT
        &&& self.status == DoorStatus::OPEN ==> -VEC_LIMIT <= self.timerVal
        &&& self.status == DoorStatus::CLOSED ==> self.position == UNIT
        &&& self.status == DoorStatus::OPEN ==> self.position == 0
    }

    /// The door one tick later. A closed door waits. An opening door
    /// retracts by `moveIncr` and is open, with a full timer, once it
    /// reaches `0`. An open door runs its timer down by `timerIncr`, or
    /// refills it while the player stands in the doorway, and starts to
    /// close once the timer has gone below zero, where it stays until the
    /// door is open again. A closing door extends by `moveIncr` and is
    /// closed once it reaches `UNIT`.
    pub open spec fn updated(self, moveIncr: int, timerIncr: int, playerInsideDoor: bool) -> Door {
        match self.status {
            DoorStatus::CLOSED => self,
            DoorStatus::OPENING => {
                let p = clamp_unit(self.position - moveIncr);
                if p == 0 {
                    Door { position: 0, status: DoorStatus::OPEN, timerVal: UNIT }
                } else {
                    Door { position: p as i64, ..self }
                }
            },
            DoorStatus::OPEN => {
                if playerInsideDoor {
                    Door { timerVal: UNIT, ..self }
                } else if self.timerVal - timerIncr < 0 {
                    Door { status: DoorStatus::CLOSING, timerVal: (self.timerVal - timerIncr) as i64, ..self }
                } else {
                    Door { timerVal: (self.timerVal - timerIncr) as i64, ..self }
                }
            },
            DoorStatus::CLOSING => {
                let p = clamp_unit(self.position + moveIncr);
                if p == UNIT {
                    Door { position: UNIT, status: DoorStatus::CLOSED, ..self }
                } else {
                    Door { position: p as i64, ..self }
                }
            },
        }
    }

    /// The door after `tick`.
    pub open spec fn ticked(self, tick: DoorTick) -> Door {
        self.updated(tick.moveIncr as int, tick.timerIncr as int, tick.playerInsideDoor)
    }

    /// The door after the ticks of `ticks`, in their order.
    pub open spec fn after_ticks(self, ticks: Seq<DoorTick>) -> Door
        decreases ticks.len(),
    {
        if ticks.len() == 0 {
            self
        } else {
            self.after_ticks(ticks.drop_last()).ticked(ticks.last())
        }
    }

    /// The door's status is that of `before` or the one that comes next in
    /// the cycle.
    pub open spec fn follows(self, before: Door) -> bool {
        self.status == before.status || self.status == before.status.next()
    }

    /// The door once it was told to open: a closed door starts to open;
    /// any other door goes on as it was.
    pub open spec fn opened(self) -> Door {
        match self.status {
            DoorStatus::CLOSED => Door { status: DoorStatus::OPENING, ..self },
            _ => self,
        }
    }

    /// A closed door with a full timer.
    pub fn New() -> (d: Self)
        ensures
            d == (Door { position: UNIT, status: DoorStatus::CLOSED, timerVal: UNIT }),
            d.wf(),
    {
        Self {
            position: DoorPosition::CLOSED.Value(),
            status: DoorStatus::CLOSED,
            timerVal: DoorTimerVal::FULL_TIME_LEFT.Value(),
        }
    }

    /// What a ray shows of the door's leaf when its cursor stands at `c`,
    /// on the boundary of the door's tile. The leaf stands on the
    /// centerline of the tile. The ray meets it where the cursor, gone on
    /// to the centerline, still stands on the door's tile; a ray that
    /// leaves through a side before that passes, and so does one that runs
    /// along the face. A ray that meets the centerline passes where the
    /// leaf has retracted: at an offset along the centerline that is not
    /// less than `position`.
    pub open spec fn leaf_slice(self, c: CursorModel) -> Option<WallSlice> {
        let m = c.center();
        if self.leaf_blocks(c) {
            Some(
                WallSlice {
                    textureHandle: light_texture(
                        wall_type_at(c.px, c.py),
                        TextureHandle { textureType: TextureType::WALL, ID: LEAF_LIT_TEXTURE },
                        TextureHandle { textureType: TextureType::WALL, ID: LEAF_UNLIT_TEXTURE },
                    ),
                    textureRect: column_rect(self.position - width_percent_at(m.px, m.py)),
                    dist: m.dist() as i64,
                },
            )
        } else {
            None
        }
    }

    /// Whether the door's leaf is in the way of a ray whose cursor stands
    /// at `c`, on the boundary of the door's tile.
    pub open spec fn leaf_blocks(self, c: CursorModel) -> bool {
        let m = c.center();
        &&& c.crosses_center()
        &&& m.tx == c.tx
        &&& m.ty == c.ty
        &&& width_percent_at(m.px, m.py) < self.position
    }

    pub fn GetWallSlice(&self, rayCursor: &mut RayCursor) -> (slice: Option<WallSlice>)
        requires
            self.wf(),
            old(rayCursor).wf(),
            old(rayCursor).on_face(),
        ensures
            slice == self.leaf_slice(old(rayCursor)@),
            slice.is_some() == self.leaf_blocks(old(rayCursor)@),
            *final(rayCursor) == if slice.is_some() {
                old(rayCursor).recalled()
            } else {
                *old(rayCursor)
            },
            final(rayCursor).same_place(*old(rayCursor)),
    {
        // A ray that runs along the face never comes to the leaf.
        if !rayCursor.CrossesCenter() {
            return None;
        }
        // Where the ray meets the middle of the tile, where the leaf stands.
        let mut centeredHitInfo = rayCursor.GetNextCenterHit();
        if centeredHitInfo.hitTile == rayCursor.hitTile {
            let centerWidthPercent: i64 = centeredHitInfo.GetWidthPercent();

            // The ray meets the plane of the leaf; the leaf may have left.
            if centerWidthPercent < self.position {
                let litLeafTexture = TextureHandle::New(TextureType::WALL, LEAF_LIT_TEXTURE);
                let unlitLeafTexture = TextureHandle::New(TextureType::WALL, LEAF_UNLIT_TEXTURE);

                let leafWidthPercent: i64 = self.position - centerWidthPercent;
                let leafDistance: i64 = centeredHitInfo.GetDistToHitPoint();

                Some(
                    WallSlice {
                        textureHandle: LightTexture(rayCursor, litLeafTexture, unlitLeafTexture),
                        textureRect: ColumnRect(leafWidthPercent),
                        dist: leafDistance,
                    },
                )
            } else {
                None
            }
        } else {
            // The ray leaves through a side of the tile before it reaches
            // the middle. Whoever casts the ray sees that it came through a
            // doorway and gives the next wall the texture of a door jamb.
            None
        }
    }

    /// A door's answer to a ray: a slice of its leaf, or nothing.
    pub fn RayTileHit(&self, rayCursor: &mut RayCursor) -> (hit: Option<WallSlice>)
        requires
            self.wf(),
            old(rayCursor).wf(),
            old(rayCursor).on_face(),
        ensures
            hit == self.leaf_slice(old(rayCursor)@),
            hit.is_some() == self.leaf_blocks(old(rayCursor)@),
            *final(rayCursor) == if hit.is_some() {
                old(rayCursor).recalled()
            } else {
                *old(rayCursor)
            },
            final(rayCursor).same_place(*old(rayCursor)),
    {
        self.GetWallSlice(rayCursor)
    }

    /// Whether the door stops a walker: it does while the leaf covers more
    /// of the doorway than the clearance.
    pub fn PlayerTileHit(&self) -> (hit: bool)
        ensures
            hit == (self.position > DOOR_CLEARANCE),
    {
        self.position > DOOR_CLEARANCE
    }

    /// Tells the door to open.
    pub fn Open(&mut self)
        ensures
            *final(self) == old(self).opened(),
            old(self).wf() ==> final(self).wf(),
    {
        match self.status {
            DoorStatus::CLOSED => {
                self.status = DoorStatus::OPENING;
            },
            _ => {},
        }
    }

    /// Lets one tick pass. A door that moves must have a fraction for its
    /// position, and the timer that an open door runs down must stay
    /// within the range of the machine's numbers; nothing else is asked.
    /// The position stays a fraction, the status stays or moves to the
    /// next of the cycle, and a closed door stays as it is.
    pub fn Update(&mut self, moveIncr: i64, timerIncr: i64, playerInsideDoor: bool)
        requires
            old(self).status == DoorStatus::OPENING || old(self).status == DoorStatus::CLOSING ==> 0 <= old(
                self,
            ).position <= UNIT,
            old(self).status == DoorStatus::OPEN && !playerInsideDoor ==> i64::MIN <= old(self).timerVal
                - timerIncr <= i64::MAX,
        ensures
            *final(self) == old(self).updated(moveIncr as int, timerIncr as int, playerInsideDoor),
            final(self).follows(*old(self)),
            0 <= old(self).position <= UNIT ==> 0 <= final(self).position <= UNIT,
            old(self).status == DoorStatus::CLOSED ==> *final(self) == *old(self),
            old(self).wf() && 0 <= timerIncr <= VEC_LIMIT ==> final(self).wf(),
    {
        match self.status {
            DoorStatus::CLOSED => {},
            DoorStatus::OPEN => {
                if !playerInsideDoor {
                    self.timerVal = self.timerVal - timerIncr;
                    if self.timerVal < DoorTimerVal::NO_TIME_LEFT.Value() {
                        self.status = DoorStatus::CLOSING;
                    }
                } else {
                    self.timerVal = DoorTimerVal::FULL_TIME_LEFT.Value();
                }
            },
            DoorStatus::OPENING => {
                if moveIncr >= self.position {
                    self.position = DoorPosition::OPEN.Value();
                    self.status = DoorStatus::OPEN;
                    self.timerVal = DoorTimerVal::FULL_TIME_LEFT.Value();
                } else if moveIncr < self.position - UNIT {
                    self.position = UNIT;
                } else {
                    self.position = self.position - moveIncr;
                }
            },
            DoorStatus::CLOSING => {
                if moveIncr >= UNIT - self.position {
                    self.position = DoorPosition::CLOSED.Value();
                    self.status = DoorStatus::CLOSED;
                } else if moveIncr < -self.position {
                    self.position = 0;
                } else {
                    self.position = self.position + moveIncr;
                }
            },
        }
    }
}

/// One tick leaves a door well formed and moves its status at most one
/// place along the cycle.
pub proof fn lemma_tick_keeps_door(d: Door, tick: DoorTick)
    requires
        d.wf(),
        tick.fits(),
    ensures
        d.ticked(tick).wf(),
        d.ticked(tick).follows(d),
{
}

/// Whatever ticks a door receives that run its timer down by an amount
/// within the machine limits, it stays well formed.
pub proof fn lemma_ticks_keep_door(d: Door, ticks: Seq<DoorTick>)
    requires
        d.wf(),
        forall|k: int| 0 <= k < ticks.len() ==> (#[trigger] ticks[k]).fits(),
    ensures
        d.after_ticks(ticks).wf(),
        0 <= d.after_ticks(ticks).position <= UNIT,
    decreases ticks.len(),
{
    if ticks.len() > 0 {
        lemma_ticks_keep_door(d, ticks.drop_last());
    }
}

/// Whatever ticks a door receives, its position stays a fraction.
pub proof fn lemma_position_stays_a_fraction(d: Door, ticks: Seq<DoorTick>)
    requires
        0 <= d.position <= UNIT,
    ensures
        0 <= d.after_ticks(ticks).position <= UNIT,
    decreases ticks.len(),
{
    if ticks.len() > 0 {
        lemma_position_stays_a_fraction(d, ticks.drop_last());
    }
}

/// In every run of ticks, each tick leaves the status as it was or moves it
/// to the one that comes next in the cycle closed, opening, open, closing,
/// closed: no status is skipped.
pub proof fn lemma_status_follows_cycle(d: Door, ticks: Seq<DoorTick>, k: int)
    requires
        0 <= k < ticks.len(),
    ensures
        d.after_ticks(ticks.take(k + 1)).follows(d.after_ticks(ticks.take(k))),
        d.after_ticks(ticks.take(k + 1)) == d.after_ticks(ticks.take(k)).ticked(ticks[k]),
{
    let upto = ticks.take(k + 1);
    assert(upto.drop_last() =~= ticks.take(k));
}

/// A closed door that is never told to open stays as it is, whatever ticks
/// it receives.
pub proof fn lemma_closed_door_stays_closed(d: Door, ticks: Seq<DoorTick>)
    requires
        d.status == DoorStatus::CLOSED,
    ensures
        d.after_ticks(ticks) == d,
    decreases ticks.len(),
{
    if ticks.len() > 0 {
        lemma_closed_door_stays_closed(d, ticks.drop_last());
    }
}

/// The texture numbers of the decorative objects that are solid.
pub const NO_PASSTHROUGH_ID_LIST: [i32; 21] = [
    4, 5, 6, 8, 10, 11, 13, 14, 15, 16, 19, 20, 21, 25, 38, 39, 40, 42, 48, 49, 50,
];

/// Whether the decorative object with the texture number `id` is solid.
pub open spec fn is_solid_object(id: i32) -> bool {
    NO_PASSTHROUGH_ID_LIST@.contains(id)
}

/// Whether the decorative object with the texture number `id` is solid.
pub fn IsSolidObject(id: i32) -> (solid: bool)
    ensures
        solid == is_solid_object(id),
{
    let mut i: usize = 0;
    while i < 21
        invariant
            0 <= i <= 21,
            forall|k: int| 0 <= k < i ==> NO_PASSTHROUGH_ID_LIST@[k] != id,
        decreases 21 - i,
    {
        if NO_PASSTHROUGH_ID_LIST[i] == id {
            return true;
        }
        i = i + 1;
    }
    false
}

/// A tile that holds one decorative object. Rays pass it; walkers pass it
/// unless the object is solid.
#[derive(Copy, Clone, Debug)]
pub struct ObjectTile {
    pub sprite: Sprite,
    pub passthrough: bool,
}

impl ObjectTile {
    /// The sprite shows an object, and the tile is passable exactly if the
    /// object is not solid.
    pub open spec fn wf(self) -> bool {
        &&& self.sprite.spriteType == SpriteType::OBJECT
        &&& self.sprite.textureHandle.textureType == TextureType::OBJECT
        &&& self.passthrough == !is_solid_object(self.sprite.textureHandle.ID)
    }

    /// The tile that holds the object shown by `sprite`.
    pub fn New(sprite: Sprite) -> (t: Self)
        requires
            sprite.spriteType == SpriteType::OBJECT,
            sprite.textureHandle.textureType == TextureType::OBJECT,
        ensures
            t.sprite == sprite,
            t.wf(),
    {
        Self { sprite, passthrough: !IsSolidObject(sprite.textureHandle.ID) }
    }

    /// An object never answers a ray with a wall.
    pub fn RayTileHit(&self) -> (hit: Option<WallSlice>)
        ensures
            hit.is_none(),
    {
        None
    }

    /// Whether the object stops a walker.
    pub fn PlayerTileHit(&self) -> (hit: bool)
        ensures
            hit == !self.passthrough,
    {
        !self.passthrough
    }
}

/// A tile without walls. It holds the sprites that are inside it until
/// they are drained for the frame.
#[derive(Clone, Debug)]
pub struct EmptyTile {
    pub sprites: Vec<Sprite>,
}

impl View for EmptyTile {
    type V = Seq<Sprite>;

    open spec fn view(&self) -> Seq<Sprite> {
        self.sprites@
    }
}

impl EmptyTile {
    /// A tile that holds `sprites`, or none.
    pub fn New(sprites: Option<Vec<Sprite>>) -> (t: Self)
        ensures
            t@ == match sprites {
                Some(s) => s@,
                None => Seq::<Sprite>::empty(),
            },
    {
        match sprites {
            Some(s) => Self { sprites: s },
            None => Self { sprites: Vec::new() },
        }
    }

    /// The sprites inside the tile, or `None` if there are none.
    pub fn GetSprites(&self) -> (r: Option<&Vec<Sprite>>)
        ensures
            match r {
                Some(s) => s@ == self@ && self@.len() > 0,
                None => self@.len() == 0,
            },
    {
        if self.sprites.len() == 0 {
            None
        } else {
            Some(&self.sprites)
        }
    }

    /// Puts one more sprite inside the tile.
    pub fn AddSprite(&mut self, sprite: Sprite)
        ensures
            final(self)@ == old(self)@.push(sprite),
    {
        self.sprites.push(sprite);
    }

    /// Hands out the sprites inside the tile and leaves it without any.
    pub fn DrainSprites(&mut self) -> (drained: Vec<Sprite>)
        ensures
            drained@ == old(self)@,
            final(self)@ == Seq::<Sprite>::empty(),
    {
        let mut drained: Vec<Sprite> = Vec::new();
        std::mem::swap(&mut self.sprites, &mut drained);
        drained
    }

    /// An empty tile never answers a ray with a wall.
    pub fn RayTileHit() -> (hit: Option<WallSlice>)
        ensures
            hit.is_none(),
    {
        None
    }

    /// An empty tile never stops a walker.
    pub fn PlayerTileHit() -> (hit: bool)
        ensures
            !hit,
    {
        false
    }
}

/// What occupies one cell of the grid.
#[derive(Clone, Debug)]
pub enum Tile {
    WALL(Wall),
    DOOR(Door),
    OBJECT(ObjectTile),
    EMPTY(EmptyTile),
}

/// The mathematical content of a tile.
pub enum TileModel {
    WALL(Wall),
    DOOR(Door),
    OBJECT(ObjectTile),
    EMPTY(Seq<Sprite>),
}

impl View for Tile {
    type V = TileModel;

    open spec fn view(&self) -> TileModel {
        match self {
            Tile::WALL(w) => TileModel::WALL(*w),
            Tile::DOOR(d) => TileModel::DOOR(*d),
            Tile::OBJECT(o) => TileModel::OBJECT(*o),
            Tile::EMPTY(e) => TileModel::EMPTY(e@),
        }
    }
}

impl TileModel {
    /// Doors and object tiles are well formed; walls and empty tiles
    /// always are.
    pub open spec fn wf(self) -> bool {
        match self {
            TileModel::DOOR(d) => d.wf(),
            TileModel::OBJECT(o) => o.wf(),
            _ => true,
        }
    }

    /// Whether the tile stops a ray whose cursor stands at `c`, on the
    /// boundary of the tile: a wall always, a door where its leaf is in the
    /// way, an object or empty tile never.
    pub open spec fn blocks_ray(self, c: CursorModel) -> bool {
        match self {
            TileModel::WALL(_) => true,
            TileModel::DOOR(d) => d.leaf_blocks(c),
            _ => false,
        }
    }

    /// The tile's answer to a ray whose cursor stands at `c`, on the
    /// boundary of the tile: a wall shows a slice of itself, a door a
    /// slice of its leaf where the leaf is in the way, and an object or
    /// empty tile nothing.
    pub open spec fn ray_hit(self, c: CursorModel) -> Option<WallSlice> {
        match self {
            TileModel::WALL(w) => Some(w.wall_slice(c)),
            TileModel::DOOR(d) => d.leaf_slice(c),
            TileModel::OBJECT(_) => None,
            TileModel::EMPTY(_) => None,
        }
    }

    /// Whether the tile stops a walker: a wall always, a door while its
    /// leaf covers more than the clearance, an object tile if the object is
    /// solid, an empty tile never.
    pub open spec fn blocks_movement(self) -> bool {
        match self {
            TileModel::WALL(_) => true,
            TileModel::DOOR(d) => d.position > DOOR_CLEARANCE,
            TileModel::OBJECT(o) => !o.passthrough,
            TileModel::EMPTY(_) => false,
        }
    }

    /// Whether the tile is of a kind that can close the rim of a map: a
    /// wall, a door, or an object that is solid.
    pub open spec fn solid_kind(self) -> bool {
        match self {
            TileModel::WALL(_) => true,
            TileModel::DOOR(_) => true,
            TileModel::OBJECT(o) => !o.passthrough,
            TileModel::EMPTY(_) => false,
        }
    }

    /// Whether the two tiles are of the same kind: both walls, both doors,
    /// both empty, or both objects that are alike in being solid.
    pub open spec fn same_kind(self, other: TileModel) -> bool {
        match (self, other) {
            (TileModel::WALL(_), TileModel::WALL(_)) => true,
            (TileModel::DOOR(_), TileModel::DOOR(_)) => true,
            (TileModel::OBJECT(a), TileModel::OBJECT(b)) => a.passthrough == b.passthrough,
            (TileModel::EMPTY(_), TileModel::EMPTY(_)) => true,
            _ => false,
        }
    }

    /// The sprites that the tile gives to a frame.
    pub open spec fn sprites(self) -> Seq<Sprite> {
        match self {
            TileModel::OBJECT(o) => seq![o.sprite],
            TileModel::EMPTY(s) => s,
            _ => Seq::<Sprite>::empty(),
        }
    }

    /// The tile once its sprites were taken for a frame: an empty tile is
    /// left without sprites; an object stays where it is.
    pub open spec fn drained(self) -> TileModel {
        match self {
            TileModel::EMPTY(_) => TileModel::EMPTY(Seq::<Sprite>::empty()),
            _ => self,
        }
    }

    /// The tile with one more sprite inside it, if it is an empty tile.
    pub open spec fn with_sprite(self, sprite: Sprite) -> TileModel {
        match self {
            TileModel::EMPTY(s) => TileModel::EMPTY(s.push(sprite)),
            _ => self,
        }
    }

    /// The tile with the sprites `sprites` added to those inside it, if it
    /// is an empty tile.
    pub open spec fn with_sprites(self, sprites: Seq<Sprite>) -> TileModel {
        match self {
            TileModel::EMPTY(s) => TileModel::EMPTY(s + sprites),
            _ => self,
        }
    }

    /// The tile once it was told to open, if it is a door.
    pub open spec fn opened(self) -> TileModel {
        match self {
            TileModel::DOOR(d) => TileModel::DOOR(d.opened()),
            _ => self,
        }
    }

    /// The tile one tick later: a door moves, every other tile stays.
    pub open spec fn ticked(self, tick: DoorTick) -> TileModel {
        match self {
            TileModel::DOOR(d) => TileModel::DOOR(d.ticked(tick)),
            _ => self,
        }
    }
}

impl Tile {
    /// The tile's answer to a ray.
    pub fn RayTileHit(&self, rayCursor: &mut RayCursor) -> (hit: Option<WallSlice>)
        requires
            self@.wf(),
            old(rayCursor).wf(),
            old(rayCursor).on_face(),
        ensures
            hit == self@.ray_hit(old(rayCursor)@),
            hit.is_some() == self@.blocks_ray(old(rayCursor)@),
            *final(rayCursor) == if hit.is_some() {
                old(rayCursor).recalled()
            } else {
                *old(rayCursor)
            },
            self is WALL ==> hit.is_some(),
            self is EMPTY || self is OBJECT ==> hit.is_none(),
            final(rayCursor).same_place(*old(rayCursor)),
    {
        match self {
            Tile::WALL(wall) => wall.RayTileHit(rayCursor),
            Tile::DOOR(door) => door.RayTileHit(rayCursor),
            Tile::OBJECT(object) => object.RayTileHit(),
            Tile::EMPTY(_) => EmptyTile::RayTileHit(),
        }
    }

    /// Whether the tile stops a walker.
    pub fn PlayerTileHit(&self) -> (hit: bool)
        ensures
            hit == self@.blocks_movement(),
    {
        match self {
            Tile::WALL(_) => Wall::PlayerTileHit(),
            Tile::DOOR(door) => door.PlayerTileHit(),
            Tile::OBJECT(object) => object.PlayerTileHit(),
            Tile::EMPTY(_) => EmptyTile::PlayerTileHit(),
        }
    }
}

} // verus!
