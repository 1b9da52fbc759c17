use vstd::prelude::*;
use crate::enemy::{Enemy, EnemyType};
use crate::multimedia::TextureType;
use crate::tiles::{
    is_solid_object, Door, DoorStatus, DoorTick, EmptyTile, ObjectTile, Sprite, SpriteType, TextureHandle, Tile,
    TileModel, Wall, DOOR_CLEARANCE,
};
use crate::utils::conventions::{HALF_UNIT, UNIT, VEC_LIMIT};
use crate::utils::csv::{grid_cells, grid_cols, MapError, TileCode, TileCodeGrid, MAX_MAP_DIM};
use crate::utils::dda::CursorModel;
use crate::utils::vec2d::{iPoint2, tile_center, tile_of, tile_of_point, Point2, Vec2, Vec2D};

verus! {

/// The lit texture of the wall that closes a gap in the rim of a map.
pub const RIM_TEXTURE: i32 = 1;

/// The map: every tile of the grid, column by column, and the places of
/// its doors.
#[derive(Debug)]
pub struct TileGrid {
    pub width: i32,
    pub height: i32,
    /// `tiles[x][y]` is the tile in column `x` and row `y`.
    pub tiles: Vec<Vec<Tile>>,
    pub doorTileCoords: Vec<iPoint2>,
}

impl TileGrid {
    /// The grid has `width` columns of `height` tiles each.
    pub open spec fn grid_ok(self) -> bool {
        &&& 0 <= self.width <= MAX_MAP_DIM
        &&& 0 <= self.height <= MAX_MAP_DIM
        &&& self.tiles@.len() == self.width
        &&& forall|x: int| 0 <= x < self.width ==> (#[trigger] self.tiles@[x])@.len() == self.height
    }

    /// Whether the grid has a tile in column `x` and row `y`.
    pub open spec fn in_grid(self, x: int, y: int) -> bool {
        0 <= x < self.width && 0 <= y < self.height
    }

    /// Whether the grid has the tile `c`.
    pub open spec fn contains(self, c: iPoint2) -> bool {
        self.in_grid(c.x as int, c.y as int)
    }

    /// Whether `c` is a tile of the grid that is not on its rim.
    pub open spec fn within_map(self, c: iPoint2) -> bool {
        0 < c.x < self.width - 1 && 0 < c.y < self.height - 1
    }

    /// Whether the tile in column `x` and row `y` is on the rim of the grid.
    pub open spec fn on_rim(self, x: int, y: int) -> bool {
        x == 0 || y == 0 || x == self.width - 1 || y == self.height - 1
    }

    /// The tile in column `x` and row `y`.
    pub open spec fn tile_at(self, x: int, y: int) -> TileModel {
        self.tiles@[x]@[y]@
    }

    /// The places of the doors are listed without repetition: every place
    /// listed is that of a door, and every door's place is listed once.
    pub open spec fn doors_listed(self) -> bool {
        &&& forall|k: int|
            0 <= k < self.doorTileCoords@.len() ==> self.contains(#[trigger] self.doorTileCoords@[k])
                && self.tile_at(
                self.doorTileCoords@[k].x as int,
                self.doorTileCoords@[k].y as int,
            ) is DOOR
        &&& forall|j: int, k: int|
            0 <= j < k < self.doorTileCoords@.len() ==> self.doorTileCoords@[j]
                != self.doorTileCoords@[k]
        &&& forall|x: int, y: int|
            self.in_grid(x, y) && #[trigger] self.tile_at(x, y) is DOOR ==> self.door_index(x, y)
                is Some
    }

    /// Where the list of doors names the tile in column `x` and row `y`.
    pub open spec fn door_index(self, x: int, y: int) -> Option<int> {
        if exists|k: int| 0 <= k < self.doorTileCoords@.len() && self.doorTileCoords@[k] == (Vec2D {
            x: x as i32,
            y: y as i32,
        }) {
            Some(
                choose|k: int| 0 <= k < self.doorTileCoords@.len() && self.doorTileCoords@[k] == (Vec2D {
                    x: x as i32,
                    y: y as i32,
                }),
            )
        } else {
            None
        }
    }

    /// The grid is rectangular, every tile is well formed, every tile on the
    /// rim is of a solid kind, and the doors are listed.
    pub open spec fn wf(self) -> bool {
        &&& self.grid_ok()
        &&& forall|x: int, y: int| self.in_grid(x, y) ==> (#[trigger] self.tile_at(x, y)).wf()
        &&& forall|x: int, y: int|
            self.in_grid(x, y) && self.on_rim(x, y) ==> (#[trigger] self.tile_at(x, y)).solid_kind()
        &&& self.doors_listed()
    }

    /// Whether a walker can stand at `p`: the point lies in a tile of the
    /// grid that does not stop walkers.
    pub open spec fn passable(self, p: Point2) -> bool {
        let x = tile_of(p.x as int);
        let y = tile_of(p.y as int);
        self.in_grid(x, y) && !self.tile_at(x, y).blocks_movement()
    }

    /// Whether an enemy can stand at `proposed` while the player is at
    /// `player`: the point lies in a tile off the rim that is not the
    /// player's and that does not stop walkers: an empty tile, an object
    /// that is not solid, or a door that has left the clearance free.
    pub open spec fn valid_enemy_location(self, proposed: Point2, player: Point2) -> bool {
        let x = tile_of(proposed.x as int);
        let y = tile_of(proposed.y as int);
        &&& self.within_map(Vec2D { x: x as i32, y: y as i32 })
        &&& !(x == tile_of(player.x as int) && y == tile_of(player.y as int))
        &&& match self.tile_at(x, y) {
            TileModel::EMPTY(_) => true,
            TileModel::OBJECT(o) => o.passthrough,
            TileModel::DOOR(d) => d.position <= DOOR_CLEARANCE,
            TileModel::WALL(_) => false,
        }
    }

    /// What one tick feeds to the door in column `x` and row `y`.
    pub open spec fn door_tick(x: int, y: int, moveIncr: i64, timerIncr: i64, playerLoc: Point2) -> DoorTick {
        DoorTick {
            moveIncr,
            timerIncr,
            playerInsideDoor: tile_of(playerLoc.x as int) == x && tile_of(playerLoc.y as int) == y,
        }
    }

    /// Whether this map is `before` with the tile in column `x` and row `y`
    /// replaced by `tile`.
    pub open spec fn differs_at(self, before: TileGrid, x: int, y: int, tile: TileModel) -> bool {
        &&& self.grid_ok()
        &&& self.width == before.width
        &&& self.height == before.height
        &&& self.doorTileCoords == before.doorTileCoords
        &&& forall|i: int, j: int|
            before.in_grid(i, j) ==> #[trigger] self.tile_at(i, j) == if i == x && j == y {
                tile
            } else {
                before.tile_at(i, j)
            }
    }

    /// Whether `after` is this map one tick later: every door has moved on
    /// by a tick, with the player at `playerLoc`, and nothing else has
    /// changed.
    pub open spec fn doors_ticked_to(self, after: TileGrid, moveIncr: i64, timerIncr: i64, playerLoc: Point2) -> bool {
        &&& after.width == self.width
        &&& after.height == self.height
        &&& after.doorTileCoords == self.doorTileCoords
        &&& forall|x: int, y: int|
            self.in_grid(x, y) ==> #[trigger] after.tile_at(x, y) == self.tile_at(x, y).ticked(
                TileGrid::door_tick(x, y, moveIncr, timerIncr, playerLoc),
            )
    }

    /// Whether this map has the size of `other` and, in every place, a tile
    /// of the same kind.
    pub open spec fn same_kinds(self, other: TileGrid) -> bool {
        &&& self.width == other.width
        &&& self.height == other.height
        &&& forall|x: int, y: int|
            other.in_grid(x, y) ==> (#[trigger] self.tile_at(x, y)).same_kind(other.tile_at(x, y))
    }

    /// How many tiles a cursor at `c` can still cover before it has left
    /// the grid: the tiles from its own to the edge, counted on each axis
    /// in the sense of travel.
    pub open spec fn room(self, c: CursorModel) -> int {
        room_in(c, self.width as int, self.height as int)
    }

    /// Whether the grid has the tile `tileCoord`.
    pub fn Contains(&self, tileCoord: iPoint2) -> (b: bool)
        ensures
            b == self.contains(tileCoord),
    {
        0 <= tileCoord.x && tileCoord.x < self.width && 0 <= tileCoord.y && tileCoord.y < self.height
    }

    /// The tile `tileCoord`.
    pub fn GetTile(&self, tileCoord: iPoint2) -> (tile: &Tile)
        requires
            self.grid_ok(),
            self.contains(tileCoord),
        ensures
            *tile == self.tiles@[tileCoord.x as int]@[tileCoord.y as int],
            tile@ == self.tile_at(tileCoord.x as int, tileCoord.y as int),
    {
        &self.tiles[tileCoord.x as usize][tileCoord.y as usize]
    }

    /// The tile `tileCoord`, to be changed in place. Whatever the tile
    /// becomes, the rest of the map stays as it is.
    pub fn GetMutTile(&mut self, tileCoord: iPoint2) -> (tile: &mut Tile)
        requires
            old(self).grid_ok(),
            old(self).contains(tileCoord),
        ensures
            *tile == old(self).tiles@[tileCoord.x as int]@[tileCoord.y as int],
            final(self).grid_ok(),
            final(self).width == old(self).width,
            final(self).height == old(self).height,
            final(self).doorTileCoords == old(self).doorTileCoords,
            final(self).tiles@[tileCoord.x as int]@[tileCoord.y as int] == *final(tile),
            forall|x: int, y: int|
                old(self).in_grid(x, y) && !(x == tileCoord.x && y == tileCoord.y)
                    ==> #[trigger] final(self).tiles@[x]@[y] == old(self).tiles@[x]@[y],
    {
        &mut self.tiles[tileCoord.x as usize][tileCoord.y as usize]
    }

    /// Whether `tileCoord` is a tile of the grid that is not on its rim.
    pub fn WithinMap(&self, tileCoord: iPoint2) -> (b: bool)
        ensures
            b == self.within_map(tileCoord),
    {
        (tileCoord.x > 0 && self.width > 0 && tileCoord.x < self.width - 1) && (tileCoord.y > 0
            && self.height > 0 && tileCoord.y < self.height - 1)
    }

    /// Whether a walker can stand at `location`.
    pub fn Passable(&self, location: Point2) -> (b: bool)
        requires
            self.grid_ok(),
        ensures
            b == self.passable(location),
    {
        let tileCoord: iPoint2 = iPoint2::from(location);
        if self.Contains(tileCoord) {
            !self.GetTile(tileCoord).PlayerTileHit()
        } else {
            false
        }
    }

    /// Whether an enemy can move to `proposedLocation` while the player is
    /// at `playerLocation`.
    pub fn ValidEnemyLocation(&self, proposedLocation: Point2, playerLocation: Point2) -> (valid: bool)
        requires
            self.grid_ok(),
        ensures
            valid == self.valid_enemy_location(proposedLocation, playerLocation),
            tile_of_point(proposedLocation) == tile_of_point(playerLocation) ==> !valid,
    {
        let proposedTileCoord: iPoint2 = iPoint2::from(proposedLocation);
        let playerTileCoord: iPoint2 = iPoint2::from(playerLocation);

        let tileWithinMap: bool = self.WithinMap(proposedTileCoord);
        let notPlayerTile: bool = proposedTileCoord != playerTileCoord;

        if tileWithinMap && notPlayerTile {
            match self.GetTile(proposedTileCoord) {
                Tile::EMPTY(_) => true,
                Tile::OBJECT(object) => !object.PlayerTileHit(),
                Tile::DOOR(door) => !door.PlayerTileHit(),
                Tile::WALL(_) => false,
            }
        } else {
            false
        }
    }

    /// Puts `sprite` inside the tile `tileCoord` if that is an empty tile.
    pub fn AddSprite(&mut self, tileCoord: iPoint2, sprite: Sprite)
        requires
            old(self).wf(),
            old(self).contains(tileCoord),
        ensures
            final(self).wf(),
            final(self).differs_at(
                *old(self),
                tileCoord.x as int,
                tileCoord.y as int,
                old(self).tile_at(tileCoord.x as int, tileCoord.y as int).with_sprite(sprite),
            ),
    {
        match self.GetMutTile(tileCoord) {
            Tile::EMPTY(emptyTile) => {
                emptyTile.AddSprite(sprite);
            },
            _ => {},
        }
        proof {
            lemma_changed_tile(
                *old(self),
                *self,
                tileCoord.x as int,
                tileCoord.y as int,
                old(self).tile_at(tileCoord.x as int, tileCoord.y as int).with_sprite(sprite),
            );
        }
    }

    /// Tells the tile `tileCoord` to open if it is a door.
    pub fn OpenDoor(&mut self, tileCoord: iPoint2)
        requires
            old(self).wf(),
            old(self).contains(tileCoord),
        ensures
            final(self).wf(),
            final(self).differs_at(
                *old(self),
                tileCoord.x as int,
                tileCoord.y as int,
                old(self).tile_at(tileCoord.x as int, tileCoord.y as int).opened(),
            ),
    {
        match self.GetMutTile(tileCoord) {
            Tile::DOOR(door) => {
                door.Open();
            },
            _ => {},
        }
        proof {
            lemma_changed_tile(
                *old(self),
                *self,
                tileCoord.x as int,
                tileCoord.y as int,
                old(self).tile_at(tileCoord.x as int, tileCoord.y as int).opened(),
            );
        }
    }

    /// Lets one tick pass for every door. A door counts as occupied if the
    /// player at `playerLoc` stands in its tile.
    pub fn UpdateDoors(&mut self, moveIncr: i64, timerIncr: i64, playerLoc: Point2)
        requires
            old(self).wf(),
            0 <= timerIncr <= VEC_LIMIT,
        ensures
            final(self).wf(),
            old(self).doors_ticked_to(*final(self), moveIncr, timerIncr, playerLoc),
    {
        let playerTile: iPoint2 = iPoint2::from(playerLoc);
        let mut doorIndex: usize = 0;
        while doorIndex < self.doorTileCoords.len()
            invariant
                0 <= doorIndex <= self.doorTileCoords@.len(),
                0 <= timerIncr <= VEC_LIMIT,
                old(self).wf(),
                self.grid_ok(),
                self.width == old(self).width,
                self.height == old(self).height,
                self.doorTileCoords == old(self).doorTileCoords,
                playerTile == tile_of_point(playerLoc),
                forall|x: int, y: int|
                    old(self).in_grid(x, y) ==> #[trigger] self.tile_at(x, y) == if old(
                        self,
                    ).door_index(x, y) matches Some(k) && k < doorIndex {
                        old(self).tile_at(x, y).ticked(
                            TileGrid::door_tick(x, y, moveIncr, timerIncr, playerLoc),
                        )
                    } else {
                        old(self).tile_at(x, y)
                    },
            decreases self.doorTileCoords@.len() - doorIndex,
        {
            let doorCoord: iPoint2 = self.doorTileCoords[doorIndex];
            let ghost before = *self;
            proof {
                // The place is listed here and nowhere else.
                assert(self.tile_at(doorCoord.x as int, doorCoord.y as int) == old(self).tile_at(
                    doorCoord.x as int,
                    doorCoord.y as int,
                ));
            }
            let inside: bool = playerTile == doorCoord;
            match self.GetMutTile(doorCoord) {
                Tile::DOOR(door) => {
                    door.Update(moveIncr, timerIncr, inside);
                },
                _ => {},
            }
            proof {
                assert forall|x: int, y: int| old(self).in_grid(x, y) implies #[trigger] self.tile_at(
                    x,
                    y,
                ) == if old(self).door_index(x, y) matches Some(k) && k < doorIndex + 1 {
                    old(self).tile_at(x, y).ticked(TileGrid::door_tick(x, y, moveIncr, timerIncr, playerLoc))
                } else {
                    old(self).tile_at(x, y)
                } by {
                    if x == doorCoord.x && y == doorCoord.y {
                    } else {
                        assert(before.tile_at(x, y) == before.tiles@[x]@[y]@);
                    }
                }
            }
            doorIndex = doorIndex + 1;
        }
    }
}

/// How many tiles a cursor at `c` can still cover before it has left a grid
/// of `width` columns and `height` rows: the tiles from its own to the
/// edge, counted on each axis in the sense of travel.
pub open spec fn room_in(c: CursorModel, width: int, height: int) -> int {
    let rx = if c.ray.dx > 0 {
        width - c.tx
    } else if c.ray.dx < 0 {
        c.tx + 1
    } else {
        0
    };
    let ry = if c.ray.dy > 0 {
        height - c.ty
    } else if c.ray.dy < 0 {
        c.ty + 1
    } else {
        0
    };
    (if rx > 0 {
        rx
    } else {
        0
    }) + (if ry > 0 {
        ry
    } else {
        0
    })
}

impl View for TileGrid {
    type V = Seq<Seq<TileModel>>;

    /// The tiles of the map, column by column.
    open spec fn view(&self) -> Seq<Seq<TileModel>> {
        Seq::new(self.tiles@.len(), |x: int| Seq::new(self.tiles@[x]@.len(), |y: int| self.tiles@[x]@[y]@))
    }
}

/// Whether the tile in column `x` and row `y` is on the rim of a grid of
/// `width` columns and `height` rows.
pub open spec fn rim_of(x: int, y: int, width: int, height: int) -> bool {
    x == 0 || y == 0 || x == width - 1 || y == height - 1
}

/// The wall that closes a gap in the rim of a map.
pub open spec fn rim_wall() -> TileModel {
    TileModel::WALL(
        Wall {
            litTextureHandle: TextureHandle { textureType: TextureType::WALL, ID: RIM_TEXTURE },
            unlitTextureHandle: TextureHandle { textureType: TextureType::WALL, ID: 2 },
        },
    )
}

/// The kind of enemy that a tile code puts on the map, if any. No enemy is
/// put on the rim.
pub open spec fn spawn_of(code: TileCode, rim: bool) -> Option<EnemyType> {
    if rim {
        None
    } else {
        match code {
            TileCode::GUARD => Some(EnemyType::GUARD),
            TileCode::OFFICER => Some(EnemyType::OFFICER),
            TileCode::SS => Some(EnemyType::SS),
            _ => None,
        }
    }
}

/// The tile that a tile code puts in column `x` and row `y`. A wall has the
/// texture of its number when lit and the next one when unlit. A door is
/// closed. An object stands in the middle of its tile. An enemy stands in
/// the middle of an empty tile, which holds its sprite, the first texture
/// of its sheet. On the rim, where `rim` holds, whatever is not a wall, a
/// door or a solid object gives way to a wall.
pub open spec fn loaded_tile(code: TileCode, x: int, y: int, rim: bool) -> TileModel {
    match code {
        TileCode::WALL(id) => TileModel::WALL(
            Wall {
                litTextureHandle: TextureHandle { textureType: TextureType::WALL, ID: id },
                unlitTextureHandle: TextureHandle {
                    textureType: TextureType::WALL,
                    ID: (id + 1) as i32,
                },
            },
        ),
        TileCode::DOOR => TileModel::DOOR(
            Door { position: UNIT, status: DoorStatus::CLOSED, timerVal: UNIT },
        ),
        TileCode::OBJECT(id) => if rim && !is_solid_object(id) {
            rim_wall()
        } else {
            TileModel::OBJECT(
                ObjectTile {
                    sprite: Sprite {
                        spriteType: SpriteType::OBJECT,
                        textureHandle: TextureHandle { textureType: TextureType::OBJECT, ID: id },
                        location: tile_center(x, y),
                    },
                    passthrough: !is_solid_object(id),
                },
            )
        },
        TileCode::EMPTY => if rim {
            rim_wall()
        } else {
            TileModel::EMPTY(Seq::<Sprite>::empty())
        },
        _ => if rim {
            rim_wall()
        } else {
            TileModel::EMPTY(
                seq![
                    Sprite {
                        spriteType: SpriteType::ENEMY,
                        textureHandle: TextureHandle {
                            textureType: spawn_of(code, false).unwrap().sheet(),
                            ID: 1,
                        },
                        location: tile_center(x, y),
                    },
                ],
            )
        },
    }
}

/// Whether a tile code asks for a wall whose unlit texture would have no
/// number.
pub open spec fn texture_out_of_range(code: TileCode) -> bool {
    code == TileCode::WALL(i32::MAX)
}

/// The enemies that the first `rows` cells of column `x` put on the map,
/// each with its kind, column and row.
pub open spec fn column_spawns(cells: Seq<Seq<TileCode>>, width: int, height: int, x: int, rows: int) -> Seq<
    (EnemyType, int, int),
>
    decreases rows,
{
    if rows <= 0 {
        Seq::<(EnemyType, int, int)>::empty()
    } else {
        let before = column_spawns(cells, width, height, x, rows - 1);
        match spawn_of(cells[rows - 1][x], rim_of(x, rows - 1, width, height)) {
            Some(kind) => before.push((kind, x, rows - 1)),
            None => before,
        }
    }
}

/// The enemies that the first `cols` columns put on the map, column after
/// column and, in each, row after row.
pub open spec fn grid_spawns(cells: Seq<Seq<TileCode>>, width: int, height: int, cols: int) -> Seq<
    (EnemyType, int, int),
>
    decreases cols,
{
    if cols <= 0 {
        Seq::<(EnemyType, int, int)>::empty()
    } else {
        grid_spawns(cells, width, height, cols - 1) + column_spawns(
            cells,
            width,
            height,
            cols - 1,
            height,
        )
    }
}

/// Every enemy that the first `rows` cells of a column put on the map
/// stands in one of those cells.
pub proof fn lemma_column_spawns_in_grid(cells: Seq<Seq<TileCode>>, width: int, height: int, x: int, rows: int, i: int)
    requires
        0 <= i < column_spawns(cells, width, height, x, rows).len(),
    ensures
        column_spawns(cells, width, height, x, rows)[i].1 == x,
        0 <= column_spawns(cells, width, height, x, rows)[i].2 < rows,
    decreases rows,
{
    if rows > 0 {
        let before = column_spawns(cells, width, height, x, rows - 1);
        if i < before.len() {
            lemma_column_spawns_in_grid(cells, width, height, x, rows - 1, i);
        }
    }
}

/// Every enemy that the first `cols` columns put on the map stands in one
/// of the cells of those columns.
pub proof fn lemma_spawns_in_grid(cells: Seq<Seq<TileCode>>, width: int, height: int, cols: int, i: int)
    requires
        0 <= i < grid_spawns(cells, width, height, cols).len(),
    ensures
        0 <= grid_spawns(cells, width, height, cols)[i].1 < cols,
        0 <= grid_spawns(cells, width, height, cols)[i].2 < height,
    decreases cols,
{
    if cols > 0 {
        let before = grid_spawns(cells, width, height, cols - 1);
        if i < before.len() {
            lemma_spawns_in_grid(cells, width, height, cols - 1, i);
        } else {
            lemma_column_spawns_in_grid(cells, width, height, cols - 1, height, i - before.len());
        }
    }
}

/// The way that the enemy `i` looks at first: the headings are dealt out
/// to the enemies in turn, and anew from the first when they run out.
/// Where there is no heading at all the enemy looks east.
pub open spec fn heading_of(headings: Seq<Vec2>, i: int) -> Vec2 {
    if headings.len() == 0 {
        Vec2D { x: UNIT, y: 0i64 }
    } else {
        headings[i % (headings.len() as int)]
    }
}

/// Whether `enemies` are the enemies `spawns`, just made, each looking
/// along its heading.
pub open spec fn enemies_spawned(enemies: Seq<Enemy>, spawns: Seq<(EnemyType, int, int)>, headings: Seq<Vec2>) -> bool {
    &&& enemies.len() == spawns.len()
    &&& forall|i: int|
        0 <= i < enemies.len() ==> (#[trigger] enemies[i]).is_fresh(
            spawns[i].0,
            spawns[i].1,
            spawns[i].2,
            heading_of(headings, i),
        )
}

/// The tile for one cell of a map.
fn LoadTile(code: TileCode, column: i32, row: i32, rim: bool) -> (r: Result<Tile, MapError>)
    requires
        0 <= column < MAX_MAP_DIM,
        0 <= row < MAX_MAP_DIM,
    ensures
        texture_out_of_range(code) ==> r == Err::<Tile, MapError>(MapError::TextureOutOfRange),
        !texture_out_of_range(code) ==> (r matches Ok(tile) && tile@ == loaded_tile(
            code,
            column as int,
            row as int,
            rim,
        ) && tile@.wf()),
{
    let spriteLocation: Point2 = Point2::New(
        (column as i64) * UNIT + HALF_UNIT,
        (row as i64) * UNIT + HALF_UNIT,
    );
    let tile = match code {
        TileCode::EMPTY => {
            if rim {
                Tile::WALL(Wall::New(RIM_TEXTURE, RIM_TEXTURE + 1))
            } else {
                Tile::EMPTY(EmptyTile::New(None))
            }
        },
        TileCode::WALL(id) => {
            if id == i32::MAX {
                return Err(MapError::TextureOutOfRange);
            }
            Tile::WALL(Wall::New(id, id + 1))
        },
        TileCode::DOOR => Tile::DOOR(Door::New()),
        TileCode::GUARD => {
            if rim {
                Tile::WALL(Wall::New(RIM_TEXTURE, RIM_TEXTURE + 1))
            } else {
                Tile::EMPTY(EnemyTile(TextureType::GUARD, spriteLocation))
            }
        },
        TileCode::OFFICER => {
            if rim {
                Tile::WALL(Wall::New(RIM_TEXTURE, RIM_TEXTURE + 1))
            } else {
                Tile::EMPTY(EnemyTile(TextureType::OFFICER, spriteLocation))
            }
        },
        TileCode::SS => {
            if rim {
                Tile::WALL(Wall::New(RIM_TEXTURE, RIM_TEXTURE + 1))
            } else {
                Tile::EMPTY(EnemyTile(TextureType::SS, spriteLocation))
            }
        },
        TileCode::OBJECT(id) => {
            let object = ObjectTile::New(
                Sprite {
                    spriteType: SpriteType::OBJECT,
                    textureHandle: TextureHandle::New(TextureType::OBJECT, id),
                    location: spriteLocation,
                },
            );
            if rim && !object.PlayerTileHit() {
                Tile::WALL(Wall::New(RIM_TEXTURE, RIM_TEXTURE + 1))
            } else {
                Tile::OBJECT(object)
            }
        },
    };
    Ok(tile)
}

/// An empty tile that holds the sprite of an enemy with its textures on
/// the sheet `sheet`.
fn EnemyTile(sheet: TextureType, location: Point2) -> (tile: EmptyTile)
    ensures
        tile@ == seq![
            Sprite {
                spriteType: SpriteType::ENEMY,
                textureHandle: TextureHandle { textureType: sheet, ID: 1 },
                location,
            },
        ],
{
    let mut sprites: Vec<Sprite> = Vec::new();
    sprites.push(
        Sprite {
            spriteType: SpriteType::ENEMY,
            textureHandle: TextureHandle::New(sheet, 1),
            location,
        },
    );
    EmptyTile::New(Some(sprites))
}

/// The kind of enemy that a tile code puts on the map, if any.
fn SpawnOf(code: TileCode, rim: bool) -> (kind: Option<EnemyType>)
    ensures
        kind == spawn_of(code, rim),
{
    if rim {
        None
    } else {
        match code {
            TileCode::GUARD => Some(EnemyType::GUARD),
            TileCode::OFFICER => Some(EnemyType::OFFICER),
            TileCode::SS => Some(EnemyType::SS),
            _ => None,
        }
    }
}

/// A map stays well formed when one of its tiles is replaced by a well
/// formed tile of the same kind.
pub proof fn lemma_changed_tile(before: TileGrid, after: TileGrid, x: int, y: int, tile: TileModel)
    requires
        before.wf(),
        before.in_grid(x, y),
        after.grid_ok(),
        after.width == before.width,
        after.height == before.height,
        after.doorTileCoords == before.doorTileCoords,
        after.tiles@[x]@[y]@ == tile,
        forall|i: int, j: int|
            before.in_grid(i, j) && !(i == x && j == y) ==> #[trigger] after.tiles@[i]@[j]
                == before.tiles@[i]@[j],
        tile.wf(),
        tile.same_kind(before.tile_at(x, y)),
    ensures
        after.wf(),
        after.differs_at(before, x, y, tile),
{
    assert forall|i: int, j: int| before.in_grid(i, j) implies #[trigger] after.tile_at(i, j) == if i
        == x && j == y {
        tile
    } else {
        before.tile_at(i, j)
    } by {
    }
}

/// Whether a table of tile codes has more rows or columns than a map may
/// have.
pub open spec fn grid_too_large(grid: TileCodeGrid) -> bool {
    grid_cells(grid).len() > MAX_MAP_DIM || grid_cols(grid) > MAX_MAP_DIM
}

/// Whether some cell of a table of tile codes asks for a wall whose unlit
/// texture would have no number.
pub open spec fn grid_out_of_range(grid: TileCodeGrid) -> bool {
    exists|x: int, y: int|
        0 <= x < grid_cols(grid) && 0 <= y < grid_cells(grid).len() && texture_out_of_range(
            #[trigger] grid_cells(grid)[y][x],
        )
}

impl TileGrid {
    /// Whether this map and these enemies are what the table `grid` asks
    /// for: the map has a column for each cell of a row and a row for each
    /// row of the table, every tile is the one that its cell asks for, and
    /// the enemies are those that the cells put on the map, in the order
    /// of the columns and, in each, of the rows, each looking along its
    /// heading of `headings`.
    pub open spec fn loaded_from(self, enemies: Seq<Enemy>, grid: TileCodeGrid, headings: Seq<Vec2>) -> bool {
        let cells = grid_cells(grid);
        &&& self.wf()
        &&& self.width == grid_cols(grid)
        &&& self.height == cells.len()
        &&& forall|x: int, y: int|
            self.in_grid(x, y) ==> #[trigger] self.tile_at(x, y) == loaded_tile(
                cells[y][x],
                x,
                y,
                self.on_rim(x, y),
            )
        &&& enemies_spawned(
            enemies,
            grid_spawns(cells, self.width as int, self.height as int, self.width as int),
            headings,
        )
    }

    /// Builds the map and its enemies from the table of tile codes that
    /// was read from a map file. The enemies look along the headings of
    /// `headings`, one after the other.
    pub fn LoadFromCSV(grid: &TileCodeGrid, headings: &Vec<Vec2>) -> (r: Result<(Self, Vec<Enemy>), MapError>)
        ensures
            match r {
                Ok((map, enemies)) => {
                    &&& !grid_too_large(*grid)
                    &&& !grid_out_of_range(*grid)
                    &&& map.loaded_from(enemies@, *grid, headings@)
                },
                Err(e) => if grid_too_large(*grid) {
                    e == MapError::TooLarge
                } else {
                    e == MapError::TextureOutOfRange && grid_out_of_range(*grid)
                },
            },
    {
        let rows: usize = grid.Rows();
        let cols: usize = grid.Cols();
        if rows > MAX_MAP_DIM || cols > MAX_MAP_DIM {
            return Err(MapError::TooLarge);
        }
        let width: i32 = cols as i32;
        let height: i32 = rows as i32;
        let ghost cells = grid_cells(*grid);
        let ghost w = width as int;
        let ghost h = height as int;

        let mut tiles: Vec<Vec<Tile>> = Vec::new();
        let mut doorTileCoords: Vec<iPoint2> = Vec::new();
        let mut enemies: Vec<Enemy> = Vec::new();

        let mut column: i32 = 0;
        while column < width
            invariant
                0 <= column <= width <= MAX_MAP_DIM,
                0 <= height <= MAX_MAP_DIM,
                w == width,
                h == height,
                cells == grid_cells(*grid),
                cells.len() == h,
                grid_cols(*grid) == w,
                forall|y: int| 0 <= y < h ==> (#[trigger] cells[y]).len() == w,
                tiles@.len() == column,
                forall|x: int| 0 <= x < column ==> (#[trigger] tiles@[x])@.len() == h,
                forall|x: int, y: int|
                    0 <= x < column && 0 <= y < h ==> (#[trigger] tiles@[x]@[y])@ == loaded_tile(
                        cells[y][x],
                        x,
                        y,
                        rim_of(x, y, w, h),
                    ) && tiles@[x]@[y]@.wf() && !texture_out_of_range(cells[y][x]),
                doors_cover(doorTileCoords@, cells, column as int, 0, h),
                enemies_spawned(enemies@, grid_spawns(cells, w, h, column as int), headings@),
            decreases width - column,
        {
            let mut columnTiles: Vec<Tile> = Vec::new();
            let ghost spawnsBefore = grid_spawns(cells, w, h, column as int);
            let mut row: i32 = 0;
            while row < height
                invariant
                    0 <= column < width <= MAX_MAP_DIM,
                    0 <= row <= height <= MAX_MAP_DIM,
                    w == width,
                    h == height,
                    cells == grid_cells(*grid),
                    cells.len() == h,
                    grid_cols(*grid) == w,
                    forall|y: int| 0 <= y < h ==> (#[trigger] cells[y]).len() == w,
                    columnTiles@.len() == row,
                    forall|y: int|
                        0 <= y < row ==> (#[trigger] columnTiles@[y])@ == loaded_tile(
                            cells[y][column as int],
                            column as int,
                            y,
                            rim_of(column as int, y, w, h),
                        ) && columnTiles@[y]@.wf() && !texture_out_of_range(cells[y][column as int]),
                    doors_cover(doorTileCoords@, cells, column as int, row as int, h),
                    spawnsBefore == grid_spawns(cells, w, h, column as int),
                    enemies_spawned(
                        enemies@,
                        spawnsBefore + column_spawns(cells, w, h, column as int, row as int),
                        headings@,
                    ),
                decreases height - row,
            {
                let code: TileCode = grid.Cell(row as usize, column as usize);
                let rim: bool = column == 0 || row == 0 || column == width - 1 || row == height - 1;
                match LoadTile(code, column, row, rim) {
                    Err(e) => {
                        return Err(e);
                    },
                    Ok(tile) => {
                        let ghost doorsBefore = doorTileCoords@;
                        if let TileCode::DOOR = code {
                            doorTileCoords.push(iPoint2::New(column, row));
                        }
                        proof {
                            lemma_doors_cover_next(
                                doorsBefore,
                                doorTileCoords@,
                                cells,
                                column as int,
                                row as int,
                                h,
                            );
                        }
                        match SpawnOf(code, rim) {
                            Some(kind) => {
                                let spriteLocation: Point2 = Point2::New(
                                    (column as i64) * UNIT + HALF_UNIT,
                                    (row as i64) * UNIT + HALF_UNIT,
                                );
                                let heading: Vec2 = if headings.len() == 0 {
                                    Vec2::New(UNIT, 0)
                                } else {
                                    headings[enemies.len() % headings.len()]
                                };
                                enemies.push(
                                    Enemy::New(kind, spriteLocation, iPoint2::New(column, row), heading),
                                );
                            },
                            None => {},
                        }
                        columnTiles.push(tile);
                    },
                }
                row = row + 1;
            }
            tiles.push(columnTiles);
            column = column + 1;
        }
        let map = TileGrid { width, height, tiles, doorTileCoords };
        proof {
            if grid_out_of_range(*grid) {
                let (x, y) = choose|x: int, y: int|
                    0 <= x < grid_cols(*grid) && 0 <= y < grid_cells(*grid).len()
                        && texture_out_of_range(#[trigger] grid_cells(*grid)[y][x]);
                assert(map.tiles@[x]@[y]@.wf());
            }
        }
        Ok((map, enemies))
    }
}

/// Whether `doors` lists, without repetition, the places of the doors that
/// the cells before a given one ask for: the cells of the columns before
/// `column`, and of the rows before `row` in the column `column`. Every
/// column has `height` cells.
pub open spec fn doors_cover(doors: Seq<iPoint2>, cells: Seq<Seq<TileCode>>, column: int, row: int, height: int) -> bool {
    &&& forall|k: int|
        0 <= k < doors.len() ==> cell_before(
            (#[trigger] doors[k]).x as int,
            doors[k].y as int,
            column,
            row,
            height,
        ) && cells[doors[k].y as int][doors[k].x as int] == TileCode::DOOR
    &&& forall|j: int, k: int| 0 <= j < k < doors.len() ==> doors[j] != doors[k]
    &&& forall|x: int, y: int|
        cell_before(x, y, column, row, height) && #[trigger] cells[y][x] == TileCode::DOOR
            ==> exists|k: int| 0 <= k < doors.len() && #[trigger] doors[k] == (Vec2D { x: x as i32, y: y as i32 })
}

/// Whether the cell in column `x` and row `y` comes before the cell in
/// column `column` and row `row`, column after column and, in each, row
/// after row.
pub open spec fn cell_before(x: int, y: int, column: int, row: int, height: int) -> bool {
    0 <= y < height && (0 <= x < column || (x == column && y < row))
}

/// The list of doors covers one cell more once the place of that cell was
/// added to it if the cell asks for a door.
pub proof fn lemma_doors_cover_next(
    before: Seq<iPoint2>,
    after: Seq<iPoint2>,
    cells: Seq<Seq<TileCode>>,
    column: int,
    row: int,
    height: int,
)
    requires
        0 <= column < i32::MAX,
        0 <= row < height <= i32::MAX,
        doors_cover(before, cells, column, row, height),
        after == if cells[row][column] == TileCode::DOOR {
            before.push(Vec2D { x: column as i32, y: row as i32 })
        } else {
            before
        },
    ensures
        doors_cover(after, cells, column, row + 1, height),
{
    assert forall|x: int, y: int|
        cell_before(x, y, column, row + 1, height) && #[trigger] cells[y][x] == TileCode::DOOR implies exists|
        k: int,
    | 0 <= k < after.len() && #[trigger] after[k] == (Vec2D { x: x as i32, y: y as i32 }) by {
        if x == column && y == row {
            assert(after[after.len() - 1] == (Vec2D { x: x as i32, y: y as i32 }));
        } else {
            let k = choose|k: int|
                0 <= k < before.len() && #[trigger] before[k] == (Vec2D { x: x as i32, y: y as i32 });
            assert(after[k] == (Vec2D { x: x as i32, y: y as i32 }));
        }
    }
}

} // verus!
