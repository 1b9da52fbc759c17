use vstd::prelude::*;
use crate::multimedia::{DrawCommand, MAX_SCREEN_DIM, Rect, RenderParams, WindowParams};
use crate::tiles::{Sprite, TextureHandle};
use crate::utils::conventions::{COORD_LIMIT, TEXTURE_PITCH, UNIT, VEC_LIMIT};
use crate::utils::misc_math::{clamp, FloorDivWide};
use crate::utils::vec2d::{dot, Dot, Point2, Vec2, Vec2D};

verus! {

/// How far to the side of the middle of the screen a sprite can be put.
pub const SCREEN_X_LIMIT: i64 = 1073741824;

/// What it takes to draw one sprite: where it is as seen from the player,
/// how far ahead and how far to the right, and where on the screen and how
/// large it appears.
#[derive(Copy, Clone, Debug)]
pub struct SpriteRenderData {
    pub vecToSprite: Vec2,
    pub spriteHitDistY: i64,
    pub spriteHitDistX: i64,
    pub spriteScreenX: i32,
    pub spriteRenderHeight: i32,
    pub spriteScreenRect: Rect,
    pub spriteTextureHandle: TextureHandle,
}

/// How a sprite appears to a player at `location` who looks along
/// `viewDir`, with `east` to its right. The sprite always faces the
/// player. Its distances ahead and to the right are the dot products of
/// the way to it with the two directions. Its height in pixels is the
/// height of a wall at the distance ahead; it is as wide as high; its
/// middle is as far from the middle of the screen as its distance to the
/// right, seen at its distance ahead on the projection plane, says, held
/// within `SCREEN_X_LIMIT`. A sprite that is not ahead of the player, or
/// that lies beyond the limit of coordinates, does not appear.
pub open spec fn projected_sprite(
    sprite: Sprite,
    location: Point2,
    viewDir: Vec2,
    east: Vec2,
    projPlaneDist: int,
    k: int,
    windowParams: WindowParams,
) -> Option<SpriteRenderData> {
    let vecToSprite = Vec2D {
        x: (sprite.location.x - location.x) as i64,
        y: (sprite.location.y - location.y) as i64,
    };
    let ahead = dot(vecToSprite, viewDir);
    let aside = dot(vecToSprite, east);
    if !sprite.location.within(COORD_LIMIT as int) || ahead <= 0 {
        None
    } else {
        let height = clamp(k / ahead, 0, i32::MAX as int);
        let screenX = windowParams.width / 2 + clamp(
            (projPlaneDist * aside) / (ahead * UNIT),
            -SCREEN_X_LIMIT,
            SCREEN_X_LIMIT as int,
        );
        Some(
            SpriteRenderData {
                vecToSprite,
                spriteHitDistY: ahead as i64,
                spriteHitDistX: aside as i64,
                spriteScreenX: screenX as i32,
                spriteRenderHeight: height as i32,
                spriteScreenRect: Rect {
                    x: (screenX - height / 2) as i32,
                    y: (windowParams.height / 2 - height / 2) as i32,
                    w: height as u32,
                    h: height as u32,
                },
                spriteTextureHandle: sprite.textureHandle,
            },
        )
    }
}

pub fn ProjectSprite(
    sprite: &Sprite,
    location: Point2,
    viewDir: Vec2,
    east: Vec2,
    projPlaneDist: i64,
    k: i64,
    windowParams: WindowParams,
) -> (r: Option<SpriteRenderData>)
    requires
        location.within(COORD_LIMIT as int),
        viewDir.within(UNIT as int),
        east.within(UNIT as int),
        0 <= projPlaneDist <= VEC_LIMIT,
        0 <= k <= VEC_LIMIT,
        windowParams.width <= MAX_SCREEN_DIM,
        windowParams.height <= MAX_SCREEN_DIM,
    ensures
        r == projected_sprite(
            *sprite,
            location,
            viewDir,
            east,
            projPlaneDist as int,
            k as int,
            windowParams,
        ),
{
    if sprite.location.x > COORD_LIMIT || sprite.location.x < -COORD_LIMIT || sprite.location.y
        > COORD_LIMIT || sprite.location.y < -COORD_LIMIT {
        return None;
    }
    let vecToSprite: Vec2 = sprite.location - location;
    let spriteHitDistY: i64 = Dot(vecToSprite, viewDir);
    let spriteHitDistX: i64 = Dot(vecToSprite, east);
    if spriteHitDistY <= 0 {
        return None;
    }
    proof {
        lemma_dot_bound(vecToSprite, east);
    }
    let rawHeight: i64 = k / spriteHitDistY;
    let spriteRenderHeight: i32 = if rawHeight > 2147483647 {
        i32::MAX
    } else {
        rawHeight as i32
    };
    assert(-(2147483648 * 4294967296) <= projPlaneDist * spriteHitDistX <= 2147483648 * 4294967296)
        by (nonlinear_arith)
        requires
            0 <= projPlaneDist <= 2147483648,
            -4294967296 <= spriteHitDistX <= 4294967296,
    ;
    let wide: i128 = FloorDivWide(
        (projPlaneDist as i128) * (spriteHitDistX as i128),
        (spriteHitDistY as i128) * (UNIT as i128),
    );
    let offset: i64 = if wide < -(SCREEN_X_LIMIT as i128) {
        -SCREEN_X_LIMIT
    } else if wide > SCREEN_X_LIMIT as i128 {
        SCREEN_X_LIMIT
    } else {
        wide as i64
    };
    let spriteScreenX: i32 = ((windowParams.width / 2) as i64 + offset) as i32;
    let spriteScreenRect = Rect::New(
        spriteScreenX - (spriteRenderHeight / 2),
        (windowParams.height / 2) as i32 - (spriteRenderHeight / 2),
        spriteRenderHeight as u32,
        spriteRenderHeight as u32,
    );
    Some(
        SpriteRenderData {
            vecToSprite,
            spriteHitDistY,
            spriteHitDistX,
            spriteScreenX,
            spriteRenderHeight,
            spriteScreenRect,
            spriteTextureHandle: sprite.textureHandle,
        },
    )
}

/// The dot product of a vector within the limit with a vector of at most
/// unit length is within twice the limit.
pub proof fn lemma_dot_bound(v: Vec2, u: Vec2)
    requires
        v.within(VEC_LIMIT as int),
        u.within(UNIT as int),
    ensures
        -2 * VEC_LIMIT <= dot(v, u) <= 2 * VEC_LIMIT,
{
    let unit = UNIT as int;
    let l = VEC_LIMIT as int;
    let n = v.x * u.x + v.y * u.y;
    assert(-(2 * l * unit) <= n <= 2 * l * unit) by (nonlinear_arith)
        requires
            n == v.x * u.x + v.y * u.y,
            -l <= v.x <= l,
            -l <= v.y <= l,
            -unit <= u.x <= unit,
            -unit <= u.y <= unit,
            l >= 0,
            unit >= 0,
    ;
}

/// How the first `n` of `sprites` appear, in their order; those that do
/// not appear are left out.
pub open spec fn projected_sprites(
    sprites: Seq<Sprite>,
    location: Point2,
    viewDir: Vec2,
    east: Vec2,
    projPlaneDist: int,
    k: int,
    windowParams: WindowParams,
    n: int,
) -> Seq<SpriteRenderData>
    decreases n,
{
    if n <= 0 {
        Seq::<SpriteRenderData>::empty()
    } else {
        let before = projected_sprites(
            sprites,
            location,
            viewDir,
            east,
            projPlaneDist,
            k,
            windowParams,
            n - 1,
        );
        match projected_sprite(sprites[n - 1], location, viewDir, east, projPlaneDist, k, windowParams) {
            Some(data) => before.push(data),
            None => before,
        }
    }
}

/// Where a sprite of the height `height` goes into a list of sprites in
/// the order of their heights: behind the last one that is not higher.
pub open spec fn insert_pos(data: Seq<SpriteRenderData>, height: int) -> int
    decreases data.len(),
{
    if data.len() == 0 {
        0
    } else if data.last().spriteRenderHeight <= height {
        data.len() as int
    } else {
        insert_pos(data.drop_last(), height)
    }
}

/// The sprites in the order of their heights, the lowest and so the
/// farthest first. Sprites of the same height keep their order.
pub open spec fn sorted_by_height(data: Seq<SpriteRenderData>) -> Seq<SpriteRenderData>
    decreases data.len(),
{
    if data.len() == 0 {
        data
    } else {
        let before = sorted_by_height(data.drop_last());
        before.insert(insert_pos(before, data.last().spriteRenderHeight as int), data.last())
    }
}

/// Whether no sprite of a list is higher than one behind it.
pub open spec fn ascending(data: Seq<SpriteRenderData>) -> bool {
    forall|i: int, j: int|
        0 <= i <= j < data.len() ==> data[i].spriteRenderHeight <= data[j].spriteRenderHeight
}

/// In a list in the order of heights, everything before the place where a
/// height goes in is not higher, and everything from there on is higher.
pub proof fn lemma_insert_pos(data: Seq<SpriteRenderData>, height: int)
    requires
        ascending(data),
    ensures
        0 <= insert_pos(data, height) <= data.len(),
        forall|i: int| 0 <= i < insert_pos(data, height) ==> data[i].spriteRenderHeight <= height,
        forall|i: int| insert_pos(data, height) <= i < data.len() ==> data[i].spriteRenderHeight > height,
    decreases data.len(),
{
    if data.len() > 0 && data.last().spriteRenderHeight > height {
        let front = data.drop_last();
        lemma_insert_pos(front, height);
        assert forall|i: int| 0 <= i < insert_pos(data, height) implies data[i].spriteRenderHeight
            <= height by {
            assert(front[i] == data[i]);
        }
        assert forall|i: int| insert_pos(data, height) <= i < data.len() implies data[i].spriteRenderHeight
            > height by {
            if i < front.len() {
                assert(front[i] == data[i]);
            }
        }
    }
}

/// The sprites in the order of their heights are the same sprites, each
/// as often as before, and none is higher than one behind it.
pub proof fn lemma_sorted_by_height(data: Seq<SpriteRenderData>)
    ensures
        ascending(sorted_by_height(data)),
        sorted_by_height(data).to_multiset() == data.to_multiset(),
        sorted_by_height(data).len() == data.len(),
    decreases data.len(),
{
    if data.len() > 0 {
        let front = data.drop_last();
        let before = sorted_by_height(front);
        let last = data.last();
        lemma_sorted_by_height(front);
        lemma_insert_pos(before, last.spriteRenderHeight as int);
        let p = insert_pos(before, last.spriteRenderHeight as int);
        vstd::seq_lib::to_multiset_insert(before, p, last);
        assert(front.push(last) =~= data);
        vstd::seq_lib::to_multiset_build(front, last);
    }
}

/// Puts the sprites in the order of their heights, the lowest first.
pub fn SortByHeight(data: &mut Vec<SpriteRenderData>)
    ensures
        final(data)@ == sorted_by_height(old(data)@),
{
    let mut sorted: Vec<SpriteRenderData> = Vec::new();
    let mut n: usize = 0;
    while n < data.len()
        invariant
            0 <= n <= data@.len(),
            data@ == old(data)@,
            sorted@ == sorted_by_height(data@.take(n as int)),
            sorted@.len() == n,
        decreases data@.len() - n,
    {
        let item: SpriteRenderData = data[n];
        let ghost before = sorted@;
        let mut i: usize = sorted.len();
        assert(before.take(i as int) =~= before);
        while i > 0 && sorted[i - 1].spriteRenderHeight > item.spriteRenderHeight
            invariant
                0 <= i <= sorted@.len(),
                sorted@ == before,
                insert_pos(before, item.spriteRenderHeight as int) == insert_pos(
                    before.take(i as int),
                    item.spriteRenderHeight as int,
                ),
            decreases i,
        {
            proof {
                assert(before.take(i as int).drop_last() =~= before.take(i - 1));
            }
            i = i - 1;
        }
        proof {
            assert(data@.take(n + 1).drop_last() =~= data@.take(n as int));
        }
        sorted.insert(i, item);
        n = n + 1;
    }
    assert(data@.take(data@.len() as int) =~= data@);
    *data = sorted;
}

/// Works out how each of `sprites` appears to the player.
pub fn ProjectSprites(
    sprites: &Vec<Sprite>,
    location: Point2,
    viewDir: Vec2,
    east: Vec2,
    projPlaneDist: i64,
    k: i64,
    windowParams: WindowParams,
) -> (data: Vec<SpriteRenderData>)
    requires
        location.within(COORD_LIMIT as int),
        viewDir.within(UNIT as int),
        east.within(UNIT as int),
        0 <= projPlaneDist <= VEC_LIMIT,
        0 <= k <= VEC_LIMIT,
        windowParams.width <= MAX_SCREEN_DIM,
        windowParams.height <= MAX_SCREEN_DIM,
    ensures
        data@ == projected_sprites(
            sprites@,
            location,
            viewDir,
            east,
            projPlaneDist as int,
            k as int,
            windowParams,
            sprites@.len() as int,
        ),
{
    let mut data: Vec<SpriteRenderData> = Vec::new();
    let mut n: usize = 0;
    while n < sprites.len()
        invariant
            0 <= n <= sprites@.len(),
            location.within(COORD_LIMIT as int),
            viewDir.within(UNIT as int),
            east.within(UNIT as int),
            0 <= projPlaneDist <= VEC_LIMIT,
            0 <= k <= VEC_LIMIT,
            windowParams.width <= MAX_SCREEN_DIM,
            windowParams.height <= MAX_SCREEN_DIM,
            data@ == projected_sprites(
                sprites@,
                location,
                viewDir,
                east,
                projPlaneDist as int,
                k as int,
                windowParams,
                n as int,
            ),
        decreases sprites@.len() - n,
    {
        match ProjectSprite(&sprites[n], location, viewDir, east, projPlaneDist, k, windowParams) {
            Some(item) => {
                data.push(item);
            },
            None => {},
        }
        n = n + 1;
    }
    data
}

/// The first screen column that a sprite covers.
pub open spec fn first_column(data: SpriteRenderData) -> int {
    if data.spriteScreenRect.x < 0 {
        0
    } else {
        data.spriteScreenRect.x as int
    }
}

/// The screen column behind the last that a sprite covers on a screen
/// `width` columns wide.
pub open spec fn end_column(data: SpriteRenderData, width: int) -> int {
    if data.spriteScreenRect.x + data.spriteScreenRect.w > width {
        width
    } else {
        data.spriteScreenRect.x + data.spriteScreenRect.w
    }
}

/// The strip of a sprite to draw in the screen column `x`: one pixel wide
/// and as high as the sprite, showing the column of the sprite's texture
/// that lies as far across the texture as `x` lies across the sprite.
pub open spec fn sprite_command(data: SpriteRenderData, x: int) -> DrawCommand {
    DrawCommand::Copy {
        texture: data.spriteTextureHandle,
        src: Rect {
            x: (((x - data.spriteScreenRect.x) * TEXTURE_PITCH) / (data.spriteScreenRect.w as int)) as i32,
            y: 0,
            w: 1,
            h: TEXTURE_PITCH as u32,
        },
        dst: Rect { x: x as i32, y: data.spriteScreenRect.y, w: 1, h: data.spriteScreenRect.h },
    }
}

/// The strips of a sprite to draw in the screen columns from `from` up to
/// `to`, from left to right. A strip is drawn where the sprite is not
/// lower than the wall of that column, whose height is in `heights`: a
/// higher wall is nearer and hides the sprite.
pub open spec fn sprite_columns(data: SpriteRenderData, heights: Seq<i32>, from: int, to: int) -> Seq<
    DrawCommand,
>
    decreases to - from,
{
    if from >= to {
        Seq::<DrawCommand>::empty()
    } else {
        let before = sprite_columns(data, heights, from, to - 1);
        if heights[to - 1] <= data.spriteRenderHeight {
            before.push(sprite_command(data, to - 1))
        } else {
            before
        }
    }
}

/// The strips drawn of a sprite are those of the columns where no wall is
/// higher than the sprite: a strip is among them exactly if it is the
/// strip of such a column.
pub proof fn lemma_sprite_hidden_by_higher_walls(
    data: SpriteRenderData,
    heights: Seq<i32>,
    from: int,
    to: int,
    command: DrawCommand,
)
    ensures
        sprite_columns(data, heights, from, to).contains(command) <==> exists|x: int|
            from <= x < to && heights[x] <= data.spriteRenderHeight && command == #[trigger] sprite_command(
                data,
                x,
            ),
    decreases to - from,
{
    let strips = sprite_columns(data, heights, from, to);
    if from < to {
        let before = sprite_columns(data, heights, from, to - 1);
        lemma_sprite_hidden_by_higher_walls(data, heights, from, to - 1, command);
        if heights[to - 1] <= data.spriteRenderHeight {
            if exists|x: int|
                from <= x < to && heights[x] <= data.spriteRenderHeight && command
                    == #[trigger] sprite_command(data, x) {
                let x = choose|x: int|
                    from <= x < to && heights[x] <= data.spriteRenderHeight && command
                        == #[trigger] sprite_command(data, x);
                if x == to - 1 {
                    assert(strips[strips.len() - 1] == command);
                } else {
                    let i = choose|i: int| 0 <= i < before.len() && before[i] == command;
                    assert(strips[i] == command);
                }
            }
        }
    }
}

/// What there is to draw for the first `n` of the sprites `data`, one
/// sprite after the other, so that of two sprites in one column the later
/// in the list covers the earlier.
pub open spec fn sprite_commands(data: Seq<SpriteRenderData>, heights: Seq<i32>, width: int, n: int) -> Seq<
    DrawCommand,
>
    decreases n,
{
    if n <= 0 {
        Seq::<DrawCommand>::empty()
    } else {
        sprite_commands(data, heights, width, n - 1) + sprite_columns(
            data[n - 1],
            heights,
            first_column(data[n - 1]),
            end_column(data[n - 1], width),
        )
    }
}

/// Adds the strips of one sprite to the things to draw.
pub fn DrawSprite(item: &SpriteRenderData, heights: &Vec<i32>, commands: &mut Vec<DrawCommand>)
    requires
        heights@.len() <= MAX_SCREEN_DIM,
    ensures
        final(commands)@ == old(commands)@ + sprite_columns(
            *item,
            heights@,
            first_column(*item),
            end_column(*item, heights@.len() as int),
        ),
{
    let width: i64 = heights.len() as i64;
    let left: i64 = item.spriteScreenRect.x as i64;
    let from: i64 = if left < 0 {
        0
    } else {
        left
    };
    let right: i64 = left + item.spriteScreenRect.w as i64;
    let to: i64 = if right > width {
        width
    } else {
        right
    };
    let mut x: i64 = from;
    while x < to
        invariant
            0 <= from <= x,
            from == first_column(*item),
            to == end_column(*item, heights@.len() as int),
            x <= to || to < from,
            to < from ==> x == from,
            to <= heights@.len() <= MAX_SCREEN_DIM,
            left == item.spriteScreenRect.x,
            commands@ == old(commands)@ + sprite_columns(*item, heights@, from as int, x as int),
        decreases to - x,
    {
        if heights[x as usize] <= item.spriteRenderHeight {
            let across: i64 = x - left;
            let spriteTextureX: i64 = (across * (TEXTURE_PITCH as i64)) / (item.spriteScreenRect.w as i64);
            let spriteTextureRect = Rect::New(spriteTextureX as i32, 0, 1, TEXTURE_PITCH as u32);
            let screenRect = Rect::New(x as i32, item.spriteScreenRect.y, 1, item.spriteScreenRect.h);
            commands.push(
                DrawCommand::Copy {
                    texture: item.spriteTextureHandle,
                    src: spriteTextureRect,
                    dst: screenRect,
                },
            );
        }
        x = x + 1;
    }
}

/// Works out how the sprites of the frame appear, puts them in the order
/// in which they are drawn, the farthest first, and adds their strips to
/// the things to draw.
pub fn DrawSpritesFromBuffer(
    spritesBuffer: &Vec<Sprite>,
    spritesRenderDataBuffer: &mut Vec<SpriteRenderData>,
    location: Point2,
    viewDir: Vec2,
    east: Vec2,
    renderParams: &RenderParams,
    windowParams: WindowParams,
    wallRenderHeights: &Vec<i32>,
    commands: &mut Vec<DrawCommand>,
)
    requires
        location.within(COORD_LIMIT as int),
        viewDir.within(UNIT as int),
        east.within(UNIT as int),
        0 <= renderParams.projPlaneDist <= VEC_LIMIT,
        0 <= renderParams.renderHeightProprConst <= VEC_LIMIT,
        windowParams.width <= MAX_SCREEN_DIM,
        windowParams.height <= MAX_SCREEN_DIM,
        wallRenderHeights@.len() == windowParams.width,
    ensures
        final(spritesRenderDataBuffer)@ == sorted_by_height(
            projected_sprites(
                spritesBuffer@,
                location,
                viewDir,
                east,
                renderParams.projPlaneDist as int,
                renderParams.renderHeightProprConst as int,
                windowParams,
                spritesBuffer@.len() as int,
            ),
        ),
        final(commands)@ == old(commands)@ + sprite_commands(
            final(spritesRenderDataBuffer)@,
            wallRenderHeights@,
            windowParams.width as int,
            final(spritesRenderDataBuffer)@.len() as int,
        ),
{
    let mut data = ProjectSprites(
        spritesBuffer,
        location,
        viewDir,
        east,
        renderParams.projPlaneDist,
        renderParams.renderHeightProprConst,
        windowParams,
    );
    SortByHeight(&mut data);
    *spritesRenderDataBuffer = data;

    let mut n: usize = 0;
    while n < spritesRenderDataBuffer.len()
        invariant
            0 <= n <= spritesRenderDataBuffer@.len(),
            wallRenderHeights@.len() == windowParams.width <= MAX_SCREEN_DIM,
            commands@ == old(commands)@ + sprite_commands(
                spritesRenderDataBuffer@,
                wallRenderHeights@,
                windowParams.width as int,
                n as int,
            ),
        decreases spritesRenderDataBuffer@.len() - n,
    {
        DrawSprite(&spritesRenderDataBuffer[n], wallRenderHeights, commands);
        n = n + 1;
    }
}

} // verus!
