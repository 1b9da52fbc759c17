use vstd::prelude::*;
use crate::engine::cast::{cast_columns, fresh_frame, lemma_grab_idempotent, FrameModel};
use crate::map::room_in;
use crate::tiles::{Sprite, TileModel};
use crate::utils::dda::CursorModel;
use crate::utils::ray::ray_of;
use crate::utils::vec2d::{Point2, Vec2};

verus! {

/// The sprites of the tiles `order` of the grid `tiles`, tile after tile.
pub open spec fn sprites_of(tiles: Seq<Seq<TileModel>>, order: Seq<(int, int)>) -> Seq<Sprite>
    decreases order.len(),
{
    if order.len() == 0 {
        Seq::<Sprite>::empty()
    } else {
        sprites_of(tiles, order.drop_last()) + tiles[order.last().0][order.last().1].sprites()
    }
}

/// The frame `frame` has gathered the sprites of a map whose tiles were
/// `start` when the frame began, from the tiles `order` and from no
/// others. No tile occurs twice in `order`, the marked tiles are those of
/// `order`, and the frame holds their sprites tile after tile: each sprite
/// of each of these tiles once, and nothing else. A tile that has given
/// its sprites is drained; every other tile is as it was.
pub open spec fn gathered(frame: FrameModel, start: Seq<Seq<TileModel>>, order: Seq<(int, int)>) -> bool {
    &&& frame.wf()
    &&& start.len() == frame.tiles.len()
    &&& forall|x: int| 0 <= x < start.len() ==> (#[trigger] start[x]).len() == frame.height()
    &&& order.no_duplicates()
    &&& forall|k: int| 0 <= k < order.len() ==> frame.in_grid((#[trigger] order[k]).0, order[k].1)
    &&& forall|x: int, y: int|
        frame.in_grid(x, y) ==> (frame.harvested[x][y] <==> #[trigger] order.contains((x, y)))
    &&& forall|x: int, y: int|
        frame.in_grid(x, y) ==> #[trigger] frame.tiles[x][y] == if frame.harvested[x][y] {
            start[x][y].drained()
        } else {
            start[x][y]
        }
    &&& frame.sprites == sprites_of(start, order)
}

/// The tiles that have given their sprites once the tile in column `x` and
/// row `y` was asked: one more, unless it was asked before.
pub open spec fn order_with(frame: FrameModel, order: Seq<(int, int)>, x: int, y: int) -> Seq<(int, int)> {
    if frame.harvested[x][y] {
        order
    } else {
        order.push((x, y))
    }
}

/// Asking a tile for its sprites keeps the frame in order: a tile that is
/// asked for the first time joins those that have given, and a tile that
/// was asked before adds nothing.
pub proof fn lemma_grab_gathers(frame: FrameModel, start: Seq<Seq<TileModel>>, order: Seq<(int, int)>, x: int, y: int)
    requires
        gathered(frame, start, order),
        frame.in_grid(x, y),
    ensures
        gathered(frame.grab(x, y), start, order_with(frame, order, x, y)),
        frame.grab(x, y).width() == frame.width(),
        frame.grab(x, y).height() == frame.height(),
{
    lemma_grab_idempotent(frame, x, y);
    let after = frame.grab(x, y);
    let more = order_with(frame, order, x, y);
    if !frame.harvested[x][y] {
        assert(!order.contains((x, y)));
        assert(more.drop_last() =~= order);
        assert(more.last() == (x, y));
        assert forall|i: int, j: int| 0 <= i < more.len() && 0 <= j < more.len() && i != j implies more[i]
            != more[j] by {
            if i == order.len() {
                assert(order.contains(more[j]));
            } else if j == order.len() {
                assert(order.contains(more[i]));
            }
        }
        assert forall|i: int, j: int| after.in_grid(i, j) implies (after.harvested[i][j]
            <==> #[trigger] more.contains((i, j))) by {
            if i == x && j == y {
                assert(more[order.len() as int] == (i, j));
            } else {
                if order.contains((i, j)) {
                    let k = choose|k: int| 0 <= k < order.len() && order[k] == (i, j);
                    assert(more[k] == (i, j));
                }
                if more.contains((i, j)) {
                    let k = choose|k: int| 0 <= k < more.len() && more[k] == (i, j);
                    assert(order[k] == (i, j));
                }
            }
        }
        assert forall|k: int| 0 <= k < more.len() implies after.in_grid((#[trigger] more[k]).0, more[k].1) by {
            if k < order.len() {
                assert(more[k] == order[k]);
            }
        }
    }
}

/// A ray that is cast keeps the frame in order, whatever tiles it passes.
pub proof fn lemma_cast_gathers(
    frame: FrameModel,
    start: Seq<Seq<TileModel>>,
    order: Seq<(int, int)>,
    c: CursorModel,
    prevTileWasDoor: bool,
)
    requires
        gathered(frame, start, order),
        c.ray.dx != 0 || c.ray.dy != 0,
    ensures
        exists|after: Seq<(int, int)>| gathered(frame.cast(c, prevTileWasDoor).0, start, after),
    decreases room_in(c, frame.width(), frame.height()),
{
    let n = c.step();
    if !frame.in_grid(n.tx, n.ty) {
        assert(gathered(frame.cast(c, prevTileWasDoor).0, start, order));
    } else {
        let tile = frame.tiles[n.tx][n.ty];
        match FrameModel::wall_hit(tile, n, prevTileWasDoor) {
            Some(_) => {
                assert(gathered(frame.cast(c, prevTileWasDoor).0, start, order));
            },
            None => match tile {
                TileModel::DOOR(_) => {
                    lemma_cast_gathers(frame, start, order, n, true);
                    assert(frame.cast(c, prevTileWasDoor) == frame.cast(n, true));
                    let after = choose|after: Seq<(int, int)>| gathered(frame.cast(n, true).0, start, after);
                    assert(gathered(frame.cast(c, prevTileWasDoor).0, start, after));
                },
                _ => {
                    let next = frame.grab(n.tx, n.ty);
                    lemma_grab_gathers(frame, start, order, n.tx, n.ty);
                    lemma_cast_gathers(next, start, order_with(frame, order, n.tx, n.ty), n, false);
                    assert(frame.cast(c, prevTileWasDoor) == next.cast(n, false));
                    let after = choose|after: Seq<(int, int)>| gathered(next.cast(n, false).0, start, after);
                    assert(gathered(frame.cast(c, prevTileWasDoor).0, start, after));
                },
            },
        }
    }
}

/// A frame holds every sprite once. When the rays of the screen columns
/// have been cast over a map with the tiles `tiles`, the sprites of the
/// frame are those of the tiles that some ray passed, each tile taken
/// once however many rays passed it: no sprite is there twice, and none
/// is left from an earlier frame.
pub proof fn lemma_frame_holds_each_sprite_once(
    tiles: Seq<Seq<TileModel>>,
    location: Point2,
    viewDir: Vec2,
    inDoorway: bool,
    angles: Seq<(i64, i64)>,
    n: int,
)
    requires
        fresh_frame(tiles).wf(),
        n <= angles.len(),
    ensures
        exists|order: Seq<(int, int)>|
            gathered(cast_columns(fresh_frame(tiles), location, viewDir, inDoorway, angles, n).0, tiles, order),
    decreases n,
{
    if n <= 0 {
        let none = Seq::<(int, int)>::empty();
        assert(gathered(cast_columns(fresh_frame(tiles), location, viewDir, inDoorway, angles, n).0, tiles, none));
    } else {
        lemma_frame_holds_each_sprite_once(tiles, location, viewDir, inDoorway, angles, n - 1);
        let before = cast_columns(fresh_frame(tiles), location, viewDir, inDoorway, angles, n - 1).0;
        let order = choose|order: Seq<(int, int)>| gathered(before, tiles, order);
        let direction = viewDir.rotated(angles[n - 1].0 as int, angles[n - 1].1 as int);
        let frame = cast_columns(fresh_frame(tiles), location, viewDir, inDoorway, angles, n).0;
        if direction.x == 0 && direction.y == 0 {
            assert(gathered(frame, tiles, order));
        } else {
            let c = CursorModel::start(ray_of(location, direction));
            lemma_cast_gathers(before, tiles, order, c, inDoorway);
            assert(frame == before.cast(c, inDoorway).0);
            let after = choose|after: Seq<(int, int)>| gathered(before.cast(c, inDoorway).0, tiles, after);
            assert(gathered(frame, tiles, after));
        }
    }
}

} // verus!
