use vstd::prelude::*;
use crate::engine::harvest::{gathered, lemma_frame_holds_each_sprite_once};
use crate::map::{lemma_changed_tile, room_in, TileGrid};
use crate::multimedia::{light_texture, LightTexture, TextureType};
use crate::tiles::{Sprite, TextureHandle, Tile, TileModel, WallSlice};
use crate::utils::conventions::{COORD_LIMIT, DIR_LIMIT, UNIT};
use crate::utils::dda::{wall_type_at, CursorModel, RayCursor};
use crate::utils::ray::{ray_of, Ray};
use crate::utils::vec2d::{tile_of, iPoint2, Point2, Vec2, Vec2D};

verus! {

/// Lit texture of the jamb of a doorway.
pub const JAMB_LIT_TEXTURE: i32 = 101;

/// Unlit texture of the jamb of a doorway.
pub const JAMB_UNLIT_TEXTURE: i32 = 102;

/// Where a ray was stopped, and what it shows there.
#[derive(Copy, Clone, Debug)]
pub struct RayHit {
    pub tile: iPoint2,
    pub slice: WallSlice,
}

/// What the casting of rays works on: the tiles of the map, which tiles
/// gave their sprites to the frame already, and the sprites that the frame
/// has so far.
pub struct FrameModel {
    pub tiles: Seq<Seq<TileModel>>,
    pub harvested: Seq<Seq<bool>>,
    pub sprites: Seq<Sprite>,
}

impl FrameModel {
    pub open spec fn width(self) -> int {
        self.tiles.len() as int
    }

    pub open spec fn height(self) -> int {
        if self.tiles.len() == 0 {
            0
        } else {
            self.tiles[0].len() as int
        }
    }

    /// The tiles form a grid, and there is a mark for every tile.
    pub open spec fn wf(self) -> bool {
        &&& self.harvested.len() == self.width()
        &&& forall|x: int|
            0 <= x < self.width() ==> (#[trigger] self.tiles[x]).len() == self.height()
        &&& forall|x: int|
            0 <= x < self.width() ==> (#[trigger] self.harvested[x]).len() == self.height()
    }

    pub open spec fn in_grid(self, x: int, y: int) -> bool {
        0 <= x < self.width() && 0 <= y < self.height()
    }

    /// The frame once the tile in column `x` and row `y` was asked for its
    /// sprites. A tile that was asked before gives nothing. A tile that is
    /// asked for the first time gives its sprites, an empty tile is left
    /// without any, and the tile is marked.
    pub open spec fn grab(self, x: int, y: int) -> FrameModel {
        if self.harvested[x][y] {
            self
        } else {
            FrameModel {
                tiles: self.tiles.update(x, self.tiles[x].update(y, self.tiles[x][y].drained())),
                harvested: self.harvested.update(x, self.harvested[x].update(y, true)),
                sprites: self.sprites + self.tiles[x][y].sprites(),
            }
        }
    }

    /// What a tile shows to a ray whose cursor stands at `c`, if it stops
    /// the ray. What stops a ray right behind a doorway is the jamb of the
    /// door and has its texture.
    pub open spec fn wall_hit(tile: TileModel, c: CursorModel, prevTileWasDoor: bool) -> Option<WallSlice> {
        match tile.ray_hit(c) {
            Some(slice) => if prevTileWasDoor {
                Some(
                    WallSlice {
                        textureHandle: light_texture(
                            wall_type_at(c.px, c.py),
                            TextureHandle { textureType: TextureType::WALL, ID: JAMB_LIT_TEXTURE },
                            TextureHandle { textureType: TextureType::WALL, ID: JAMB_UNLIT_TEXTURE },
                        ),
                        ..slice
                    },
                )
            } else {
                Some(slice)
            },
            None => None,
        }
    }

    /// The frame after a ray was cast, and where the ray was stopped. The
    /// cursor of the ray has come to `c`; `prevTileWasDoor` says whether
    /// the tile it stands on is a door. The cursor goes from tile to tile.
    /// The first tile that stops the ray ends the cast; a tile that lets
    /// it pass is asked for its sprites. A ray that leaves the grid was not
    /// stopped.
    pub open spec fn cast(self, c: CursorModel, prevTileWasDoor: bool) -> (FrameModel, Option<RayHit>)
        decreases room_in(c, self.width(), self.height()),
        when self.wf() && (c.ray.dx != 0 || c.ray.dy != 0)
    {
        let n = c.step();
        if !self.in_grid(n.tx, n.ty) {
            (self, None)
        } else {
            let tile = self.tiles[n.tx][n.ty];
            match FrameModel::wall_hit(tile, n, prevTileWasDoor) {
                Some(slice) => (
                    self,
                    Some(RayHit { tile: Vec2D { x: n.tx as i32, y: n.ty as i32 }, slice }),
                ),
                None => match tile {
                    TileModel::DOOR(_) => self.cast(n, true),
                    _ => self.grab(n.tx, n.ty).cast(n, false),
                },
            }
        }
    }
}

/// Asking a tile for its sprites twice in one frame gives what asking it
/// once gives: the second time nothing changes.
pub proof fn lemma_grab_idempotent(frame: FrameModel, x: int, y: int)
    requires
        frame.wf(),
        frame.in_grid(x, y),
    ensures
        frame.grab(x, y).grab(x, y) == frame.grab(x, y),
        frame.grab(x, y).harvested[x][y],
        frame.grab(x, y).wf(),
{
}

/// The marks of a frame: for each tile, whether it gave its sprites.
pub open spec fn marks_of(hitMap: Seq<Vec<bool>>) -> Seq<Seq<bool>> {
    Seq::new(hitMap.len(), |x: int| hitMap[x]@)
}

/// The frame that a map, the marks and the sprites gathered make up.
pub open spec fn frame_of(map: TileGrid, hitMap: Seq<Vec<bool>>, sprites: Seq<Sprite>) -> FrameModel {
    FrameModel { tiles: map@, harvested: marks_of(hitMap), sprites }
}

/// Whether there is a mark for every tile of a grid of `width` columns and
/// `height` rows.
pub open spec fn marks_fit(hitMap: Seq<Vec<bool>>, width: int, height: int) -> bool {
    &&& hitMap.len() == width
    &&& forall|x: int| 0 <= x < width ==> (#[trigger] hitMap[x])@.len() == height
}

/// Asks the tile `tileCoord` for its sprites, unless it was asked before
/// in this frame, and gathers them in `sprites`.
pub fn GrabSprites(map: &mut TileGrid, hitMap: &mut Vec<Vec<bool>>, sprites: &mut Vec<Sprite>, tileCoord: iPoint2)
    requires
        old(map).wf(),
        marks_fit(old(hitMap)@, old(map).width as int, old(map).height as int),
        old(map).contains(tileCoord),
    ensures
        final(map).wf(),
        final(map).width == old(map).width,
        final(map).height == old(map).height,
        final(map).doorTileCoords == old(map).doorTileCoords,
        final(map).same_kinds(*old(map)),
        marks_fit(final(hitMap)@, final(map).width as int, final(map).height as int),
        frame_of(*final(map), final(hitMap)@, final(sprites)@) == frame_of(
            *old(map),
            old(hitMap)@,
            old(sprites)@,
        ).grab(tileCoord.x as int, tileCoord.y as int),
{
    let currTileX: usize = tileCoord.x as usize;
    let currTileY: usize = tileCoord.y as usize;
    let ghost before = frame_of(*map, hitMap@, sprites@);
    let ghost x = tileCoord.x as int;
    let ghost y = tileCoord.y as int;
    if !hitMap[currTileX][currTileY] {
        let mut taken: Vec<Sprite> = Vec::new();
        match map.GetMutTile(tileCoord) {
            Tile::OBJECT(object) => {
                taken.push(object.sprite);
            },
            Tile::EMPTY(emptyTile) => {
                taken = emptyTile.DrainSprites();
            },
            _ => {},
        }
        sprites.append(&mut taken);
        hitMap[currTileX][currTileY] = true;
        proof {
            let tile = old(map).tile_at(x, y);
            lemma_changed_tile(*old(map), *map, x, y, tile.drained());
            let after = frame_of(*map, hitMap@, sprites@);
            let want = before.grab(x, y);
            assert forall|i: int| 0 <= i < after.tiles.len() implies #[trigger] after.tiles[i]
                =~= want.tiles[i] by {
            }
            assert(after.tiles =~= want.tiles);
            assert(after.harvested =~= want.harvested);
        }
    }
}

/// Whether the tile that holds the point `p` is a door of the map.
pub open spec fn stands_in_doorway(map: TileGrid, p: Point2) -> bool {
    map.in_grid(tile_of(p.x as int), tile_of(p.y as int)) && map.tile_at(
        tile_of(p.x as int),
        tile_of(p.y as int),
    ) is DOOR
}

/// Casts a ray from `origin` along `direction` through the map, gathers
/// the sprites of the tiles that it passes, and says where it was stopped.
pub fn CastRay(
    map: &mut TileGrid,
    hitMap: &mut Vec<Vec<bool>>,
    sprites: &mut Vec<Sprite>,
    origin: Point2,
    direction: Vec2,
) -> (hit: Option<RayHit>)
    requires
        old(map).wf(),
        marks_fit(old(hitMap)@, old(map).width as int, old(map).height as int),
        origin.within(COORD_LIMIT as int),
        direction.within(DIR_LIMIT as int),
        direction.x != 0 || direction.y != 0,
    ensures
        final(map).wf(),
        final(map).width == old(map).width,
        final(map).height == old(map).height,
        final(map).doorTileCoords == old(map).doorTileCoords,
        final(map).same_kinds(*old(map)),
        marks_fit(final(hitMap)@, final(map).width as int, final(map).height as int),
        (frame_of(*final(map), final(hitMap)@, final(sprites)@), hit) == frame_of(
            *old(map),
            old(hitMap)@,
            old(sprites)@,
        ).cast(CursorModel::start(ray_of(origin, direction)), stands_in_doorway(*old(map), origin)),
        hit matches Some(h) ==> old(map).contains(h.tile),
{
    let currRay = Ray::New(origin, direction);
    let mut rayCursor = RayCursor::New(currRay, origin);
    let ghost start = rayCursor@;
    let ghost firstFrame = frame_of(*map, hitMap@, sprites@);
    let ghost firstDoor = stands_in_doorway(*map, origin);
    let mut prevTileWasDoor: bool = if map.Contains(rayCursor.hitTile) {
        match map.GetTile(rayCursor.hitTile) {
            Tile::DOOR(_) => true,
            _ => false,
        }
    } else {
        false
    };
    loop
        invariant
            map.wf(),
            map.width == old(map).width,
            map.height == old(map).height,
            map.doorTileCoords == old(map).doorTileCoords,
            map.same_kinds(*old(map)),
            marks_fit(hitMap@, map.width as int, map.height as int),
            rayCursor.wf(),
            rayCursor.can_advance(),
            rayCursor@.ray.dx != 0 || rayCursor@.ray.dy != 0,
            frame_of(*map, hitMap@, sprites@).wf(),
            firstFrame == frame_of(*old(map), old(hitMap)@, old(sprites)@),
            start == CursorModel::start(ray_of(origin, direction)),
            firstDoor == stands_in_doorway(*old(map), origin),
            firstFrame.cast(start, firstDoor) == frame_of(*map, hitMap@, sprites@).cast(
                rayCursor@,
                prevTileWasDoor,
            ),
        decreases map.room(rayCursor@),
    {
        let ghost frame = frame_of(*map, hitMap@, sprites@);
        rayCursor.GoToNextHit();
        let currTileCoord: iPoint2 = rayCursor.hitTile;
        if !map.Contains(currTileCoord) {
            return None;
        }
        let mut passedDoor: bool = false;
        let mut found: Option<WallSlice> = None;
        match map.GetTile(currTileCoord) {
            Tile::WALL(wall) => {
                found = Some(wall.GetWallSlice(&mut rayCursor));
            },
            Tile::DOOR(door) => {
                found = door.GetWallSlice(&mut rayCursor);
                passedDoor = true;
            },
            Tile::OBJECT(_) => {},
            Tile::EMPTY(_) => {},
        }
        match found {
            Some(slice) => {
                let mut wallSlice = slice;
                if prevTileWasDoor {
                    let jambTextureLit = TextureHandle::New(TextureType::WALL, JAMB_LIT_TEXTURE);
                    let jambTextureUnlit = TextureHandle::New(TextureType::WALL, JAMB_UNLIT_TEXTURE);
                    wallSlice.textureHandle = LightTexture(
                        &mut rayCursor,
                        jambTextureLit,
                        jambTextureUnlit,
                    );
                }
                return Some(RayHit { tile: currTileCoord, slice: wallSlice });
            },
            None => {},
        }
        if !passedDoor {
            GrabSprites(map, hitMap, sprites, currTileCoord);
        }
        prevTileWasDoor = passedDoor;
    }
}

/// The frame at the start of the casting of rays: the tiles of the map,
/// no tile marked, no sprite gathered.
pub open spec fn fresh_frame(tiles: Seq<Seq<TileModel>>) -> FrameModel {
    FrameModel {
        tiles,
        harvested: Seq::new(tiles.len(), |x: int| Seq::new(tiles[x].len(), |y: int| false)),
        sprites: Seq::<Sprite>::empty(),
    }
}

/// The frame after the rays of the first `n` screen columns were cast, and
/// what each of them shows. The ray of a column starts where the player
/// is and points along the direction of view turned by the angle of the
/// column, given by its cosine and sine in `angles`. A column whose ray
/// has no direction left shows nothing.
pub open spec fn cast_columns(
    frame: FrameModel,
    location: Point2,
    viewDir: Vec2,
    inDoorway: bool,
    angles: Seq<(i64, i64)>,
    n: int,
) -> (FrameModel, Seq<Option<WallSlice>>)
    decreases n,
{
    if n <= 0 {
        (frame, Seq::<Option<WallSlice>>::empty())
    } else {
        let (before, slices) = cast_columns(frame, location, viewDir, inDoorway, angles, n - 1);
        let direction = viewDir.rotated(angles[n - 1].0 as int, angles[n - 1].1 as int);
        if direction.x == 0 && direction.y == 0 {
            (before, slices.push(None))
        } else {
            let (after, hit) = before.cast(CursorModel::start(ray_of(location, direction)), inDoorway);
            (
                after,
                slices.push(
                    match hit {
                        Some(h) => Some(h.slice),
                        None => None,
                    },
                ),
            )
        }
    }
}

/// Forgets which tiles gave their sprites.
pub fn ResetSpriteTileHitMap(hitMap: &mut Vec<Vec<bool>>)
    ensures
        final(hitMap)@.len() == old(hitMap)@.len(),
        forall|x: int|
            0 <= x < old(hitMap)@.len() ==> (#[trigger] final(hitMap)@[x])@ == Seq::new(
                old(hitMap)@[x]@.len(),
                |y: int| false,
            ),
{
    let mut x: usize = 0;
    while x < hitMap.len()
        invariant
            0 <= x <= hitMap@.len() == old(hitMap)@.len(),
            forall|i: int|
                0 <= i < x ==> (#[trigger] hitMap@[i])@ == Seq::new(old(hitMap)@[i]@.len(), |y: int| false),
            forall|i: int| x <= i < hitMap@.len() ==> hitMap@[i] == old(hitMap)@[i],
        decreases hitMap@.len() - x,
    {
        let mut y: usize = 0;
        let ghost column = hitMap@[x as int]@;
        while y < hitMap[x].len()
            invariant
                0 <= x < hitMap@.len() == old(hitMap)@.len(),
                column == old(hitMap)@[x as int]@,
                0 <= y <= hitMap@[x as int]@.len() == column.len(),
                forall|j: int| 0 <= j < y ==> !(#[trigger] hitMap@[x as int]@[j]),
                forall|i: int| x < i < hitMap@.len() ==> hitMap@[i] == old(hitMap)@[i],
                forall|i: int|
                    0 <= i < x ==> (#[trigger] hitMap@[i])@ == Seq::new(
                        old(hitMap)@[i]@.len(),
                        |y: int| false,
                    ),
            decreases column.len() - y,
        {
            hitMap[x][y] = false;
            y = y + 1;
        }
        x = x + 1;
    }
}

/// Casts the rays of all screen columns from where the player is. The
/// sprites of the last frame are dropped first, and every tile may give
/// its sprites anew. The frame then holds the sprites of the tiles that
/// the rays passed, each tile taken once.
pub fn RenderIntoBuffers(
    map: &mut TileGrid,
    hitMap: &mut Vec<Vec<bool>>,
    spritesBuffer: &mut Vec<Sprite>,
    wallSlicesBuffer: &mut Vec<Option<WallSlice>>,
    location: Point2,
    viewDir: Vec2,
    angles: &Vec<(i64, i64)>,
)
    requires
        old(map).wf(),
        marks_fit(old(hitMap)@, old(map).width as int, old(map).height as int),
        location.within(COORD_LIMIT as int),
        viewDir.within(UNIT as int),
        forall|x: int|
            0 <= x < angles@.len() ==> -UNIT <= (#[trigger] angles@[x]).0 <= UNIT && -UNIT
                <= angles@[x].1 <= UNIT,
    ensures
        final(map).wf(),
        final(map).width == old(map).width,
        final(map).height == old(map).height,
        final(map).doorTileCoords == old(map).doorTileCoords,
        final(map).same_kinds(*old(map)),
        marks_fit(final(hitMap)@, final(map).width as int, final(map).height as int),
        (frame_of(*final(map), final(hitMap)@, final(spritesBuffer)@), final(wallSlicesBuffer)@)
            == cast_columns(
            fresh_frame(old(map)@),
            location,
            viewDir,
            stands_in_doorway(*old(map), location),
            angles@,
            angles@.len() as int,
        ),
        exists|order: Seq<(int, int)>|
            gathered(frame_of(*final(map), final(hitMap)@, final(spritesBuffer)@), old(map)@, order),
{
    wallSlicesBuffer.clear();
    spritesBuffer.clear();
    ResetSpriteTileHitMap(hitMap);
    let ghost first = fresh_frame(old(map)@);
    let ghost inDoorway = stands_in_doorway(*old(map), location);
    proof {
        let f = frame_of(*map, hitMap@, spritesBuffer@);
        assert(f.harvested =~= first.harvested);
    }

    let mut x: usize = 0;
    while x < angles.len()
        invariant
            0 <= x <= angles@.len(),
            map.wf(),
            map.width == old(map).width,
            map.height == old(map).height,
            map.doorTileCoords == old(map).doorTileCoords,
            map.same_kinds(*old(map)),
            marks_fit(hitMap@, map.width as int, map.height as int),
            location.within(COORD_LIMIT as int),
            viewDir.within(UNIT as int),
            forall|k: int|
                0 <= k < angles@.len() ==> -UNIT <= (#[trigger] angles@[k]).0 <= UNIT && -UNIT
                    <= angles@[k].1 <= UNIT,
            first == fresh_frame(old(map)@),
            inDoorway == stands_in_doorway(*old(map), location),
            (frame_of(*map, hitMap@, spritesBuffer@), wallSlicesBuffer@) == cast_columns(
                first,
                location,
                viewDir,
                inDoorway,
                angles@,
                x as int,
            ),
        decreases angles@.len() - x,
    {
        let angle: (i64, i64) = angles[x];
        proof {
            crate::player::lemma_rotated_bound(viewDir, angle.0 as int, angle.1 as int, UNIT as int);
        }
        let direction: Vec2 = viewDir.Rotate(angle.0, angle.1);
        if direction.x == 0 && direction.y == 0 {
            wallSlicesBuffer.push(None);
        } else {
            match CastRay(map, hitMap, spritesBuffer, location, direction) {
                Some(hit) => {
                    wallSlicesBuffer.push(Some(hit.slice));
                },
                None => {
                    wallSlicesBuffer.push(None);
                },
            }
        }
        x = x + 1;
    }
    proof {
        lemma_frame_holds_each_sprite_once(
            old(map)@,
            location,
            viewDir,
            inDoorway,
            angles@,
            angles@.len() as int,
        );
    }
}

/// A grid of marks, none of them set, for `width` columns and `height`
/// rows.
pub fn NewHitMap(width: usize, height: usize) -> (hitMap: Vec<Vec<bool>>)
    ensures
        marks_fit(hitMap@, width as int, height as int),
        marks_of(hitMap@) == Seq::new(width as nat, |x: int| Seq::new(height as nat, |y: int| false)),
{
    let mut hitMap: Vec<Vec<bool>> = Vec::new();
    let mut x: usize = 0;
    while x < width
        invariant
            0 <= x <= width,
            hitMap@.len() == x,
            forall|i: int| 0 <= i < x ==> (#[trigger] hitMap@[i])@ == Seq::new(height as nat, |y: int| false),
        decreases width - x,
    {
        let mut column: Vec<bool> = Vec::new();
        let mut y: usize = 0;
        while y < height
            invariant
                0 <= y <= height,
                column@.len() == y,
                forall|j: int| 0 <= j < y ==> !column@[j],
            decreases height - y,
        {
            column.push(false);
            y = y + 1;
        }
        hitMap.push(column);
        x = x + 1;
    }
    hitMap
}

/// Casting the rays of `n` columns gives `n` answers.
pub proof fn lemma_cast_columns_len(
    frame: FrameModel,
    location: Point2,
    viewDir: Vec2,
    inDoorway: bool,
    angles: Seq<(i64, i64)>,
    n: int,
)
    requires
        0 <= n,
    ensures
        cast_columns(frame, location, viewDir, inDoorway, angles, n).1.len() == n,
    decreases n,
{
    if n > 0 {
        lemma_cast_columns_len(frame, location, viewDir, inDoorway, angles, n - 1);
    }
}

} // verus!
