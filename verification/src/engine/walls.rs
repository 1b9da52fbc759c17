use vstd::prelude::*;
use crate::multimedia::{Color, DrawCommand, MAX_SCREEN_DIM, Rect, RenderParams, WindowParams};
use crate::tiles::WallSlice;
use crate::utils::conventions::{UNIT, VEC_LIMIT};

verus! {

/// The height on the screen, in pixels, of a wall at the distance `dist`
/// along a ray that makes an angle of the cosine `cos` with the direction
/// of view, where a wall at distance one straight ahead has the height
/// `k`. The distance counts as seen from straight ahead, which takes the
/// bulge out of the picture. All three are fixed-point numbers. The height
/// is rounded down and held within the range of `i32`; a wall at no
/// distance has the greatest height.
pub open spec fn projected_height(k: int, dist: int, cos: int) -> int {
    if dist * cos <= 0 {
        i32::MAX as int
    } else if (k * UNIT) / (dist * cos) > i32::MAX {
        i32::MAX as int
    } else {
        (k * UNIT) / (dist * cos)
    }
}

pub fn ProjectedHeight(k: i64, dist: i64, cos: i64) -> (h: i32)
    requires
        0 <= k <= VEC_LIMIT,
        0 < cos <= UNIT,
    ensures
        h == projected_height(k as int, dist as int, cos as int),
        h >= 0,
{
    if dist <= 0 {
        assert(dist * cos <= 0) by (nonlinear_arith)
            requires
                dist <= 0,
                cos > 0,
        ;
        return i32::MAX;
    }
    assert(0 < dist * cos <= 0x7fff_ffff_ffff_ffff * 65536) by (nonlinear_arith)
        requires
            0 < dist <= 0x7fff_ffff_ffff_ffff,
            0 < cos <= 65536,
    ;
    let d: i128 = (dist as i128) * (cos as i128);
    let n: i128 = (k as i128) * (UNIT as i128);
    let q: i128 = n / d;
    if q > 2147483647 {
        i32::MAX
    } else {
        q as i32
    }
}

/// The height of a wall is inversely proportional to its distance: at `m`
/// times the distance a wall has an `m`-th of the height, rounded down, as
/// long as neither height is held back by the range of `i32`.
pub proof fn lemma_height_inverse_to_distance(k: int, dist: int, cos: int, m: int)
    requires
        0 <= k,
        0 < dist,
        0 < cos,
        1 <= m,
        (k * UNIT) / (dist * cos) <= i32::MAX,
    ensures
        projected_height(k, m * dist, cos) == projected_height(k, dist, cos) / m,
{
    let n = k * UNIT;
    let d = dist * cos;
    assert(d > 0) by (nonlinear_arith)
        requires
            d == dist * cos,
            dist > 0,
            cos > 0,
    ;
    assert((m * dist) * cos == d * m) by (nonlinear_arith)
        requires
            d == dist * cos,
    ;
    vstd::arithmetic::div_mod::lemma_div_denominator(n, d, m);
}

/// Forgets the heights of the walls of the last frame.
pub fn ResetWallRenderHeights(heights: &mut Vec<i32>)
    ensures
        final(heights)@ == Seq::new(old(heights)@.len(), |i: int| 0i32),
{
    let mut i: usize = 0;
    while i < heights.len()
        invariant
            0 <= i <= heights@.len() == old(heights)@.len(),
            forall|k: int| 0 <= k < i ==> heights@[k] == 0,
        decreases heights@.len() - i,
    {
        heights[i] = 0;
        i = i + 1;
    }
}

/// The pixels that the wall slice `slice` covers in the screen column `x`
/// of a window `windowHeight` pixels high: a strip one pixel wide and
/// `height` pixels high about the middle of the window.
pub open spec fn wall_command(x: int, slice: WallSlice, height: int, windowHeight: int) -> DrawCommand {
    DrawCommand::Copy {
        texture: slice.textureHandle,
        src: slice.textureRect,
        dst: Rect {
            x: x as i32,
            y: (windowHeight / 2 - height / 2) as i32,
            w: 1,
            h: height as u32,
        },
    }
}

/// The height of the wall in each screen column: the projected height of
/// what the column's ray shows, and nothing where it shows nothing.
pub open spec fn wall_heights(slices: Seq<Option<WallSlice>>, k: int, angles: Seq<(i64, i64)>) -> Seq<i32> {
    Seq::new(
        slices.len(),
        |x: int|
            match slices[x] {
                Some(slice) => projected_height(k, slice.dist as int, angles[x].0 as int) as i32,
                None => 0i32,
            },
    )
}

/// What there is to draw for the walls of the first `n` screen columns,
/// from left to right.
pub open spec fn wall_commands(slices: Seq<Option<WallSlice>>, k: int, angles: Seq<(i64, i64)>, windowHeight: int, n: int) -> Seq<
    DrawCommand,
>
    decreases n,
{
    if n <= 0 {
        Seq::<DrawCommand>::empty()
    } else {
        let before = wall_commands(slices, k, angles, windowHeight, n - 1);
        match slices[n - 1] {
            Some(slice) => before.push(
                wall_command(
                    n - 1,
                    slice,
                    projected_height(k, slice.dist as int, angles[n - 1].0 as int),
                    windowHeight,
                ),
            ),
            None => before,
        }
    }
}

/// Turns what the rays of the screen columns show into strips of wall to
/// draw, and notes the height of the wall in each column.
pub fn DrawWallsFromBuffer(
    wallSlicesBuffer: &Vec<Option<WallSlice>>,
    renderParams: &RenderParams,
    windowParams: WindowParams,
    wallRenderHeights: &mut Vec<i32>,
    commands: &mut Vec<DrawCommand>,
)
    requires
        windowParams.width <= MAX_SCREEN_DIM,
        windowParams.height <= MAX_SCREEN_DIM,
        renderParams.wf(windowParams.width as int),
        wallSlicesBuffer@.len() == windowParams.width,
        old(wallRenderHeights)@.len() == windowParams.width,
    ensures
        final(wallRenderHeights)@ == wall_heights(
            wallSlicesBuffer@,
            renderParams.renderHeightProprConst as int,
            renderParams.castingRayAngles@,
        ),
        final(commands)@ == old(commands)@ + wall_commands(
            wallSlicesBuffer@,
            renderParams.renderHeightProprConst as int,
            renderParams.castingRayAngles@,
            windowParams.height as int,
            windowParams.width as int,
        ),
{
    ResetWallRenderHeights(wallRenderHeights);
    let ghost k = renderParams.renderHeightProprConst as int;
    let ghost angles = renderParams.castingRayAngles@;
    let ghost wanted = wall_heights(wallSlicesBuffer@, k, angles);
    let halfHeight: i32 = (windowParams.height / 2) as i32;
    let mut x: usize = 0;
    while x < wallSlicesBuffer.len()
        invariant
            0 <= x <= wallSlicesBuffer@.len() == windowParams.width <= MAX_SCREEN_DIM,
            windowParams.height <= MAX_SCREEN_DIM,
            halfHeight == windowParams.height / 2,
            renderParams.wf(windowParams.width as int),
            k == renderParams.renderHeightProprConst,
            angles == renderParams.castingRayAngles@,
            wanted == wall_heights(wallSlicesBuffer@, k, angles),
            wallRenderHeights@.len() == windowParams.width,
            forall|i: int| 0 <= i < x ==> wallRenderHeights@[i] == wanted[i],
            forall|i: int| x <= i < wallRenderHeights@.len() ==> wallRenderHeights@[i] == 0,
            commands@ == old(commands)@ + wall_commands(
                wallSlicesBuffer@,
                k,
                angles,
                windowParams.height as int,
                x as int,
            ),
        decreases wallSlicesBuffer@.len() - x,
    {
        match wallSlicesBuffer[x] {
            Some(wallSlice) => {
                let renderHeight: i32 = ProjectedHeight(
                    renderParams.renderHeightProprConst,
                    wallSlice.dist,
                    renderParams.castingRayAngles[x].0,
                );
                let screenY: i32 = halfHeight - (renderHeight / 2);
                let screenRect = Rect::New(x as i32, screenY, 1, renderHeight as u32);
                wallRenderHeights[x] = renderHeight;
                commands.push(
                    DrawCommand::Copy {
                        texture: wallSlice.textureHandle,
                        src: wallSlice.textureRect,
                        dst: screenRect,
                    },
                );
            },
            None => {},
        }
        x = x + 1;
    }
}

/// A list of `width` heights, all zero.
pub fn NewHeights(width: usize) -> (heights: Vec<i32>)
    ensures
        heights@ == Seq::new(width as nat, |i: int| 0i32),
{
    let mut heights: Vec<i32> = Vec::new();
    let mut x: usize = 0;
    while x < width
        invariant
            0 <= x <= width,
            heights@.len() == x,
            forall|i: int| 0 <= i < x ==> heights@[i] == 0,
        decreases width - x,
    {
        heights.push(0);
        x = x + 1;
    }
    heights
}

/// The colour of the ceiling.
pub open spec fn ceiling_color() -> Color {
    Color { r: 50, g: 50, b: 50, a: 255 }
}

/// The colour of the floor.
pub open spec fn floor_color() -> Color {
    Color { r: 96, g: 96, b: 96, a: 255 }
}

/// The two bands that make up the background of a frame: the ceiling
/// above the middle of the window and the floor below it.
pub open spec fn ceiling_and_floor(windowParams: WindowParams) -> Seq<DrawCommand> {
    seq![
        DrawCommand::Fill {
            color: ceiling_color(),
            rect: Rect {
                x: 0,
                y: 0,
                w: windowParams.width as u32,
                h: (windowParams.height / 2) as u32,
            },
        },
        DrawCommand::Fill {
            color: floor_color(),
            rect: Rect {
                x: 0,
                y: (windowParams.height / 2) as i32,
                w: windowParams.width as u32,
                h: (windowParams.height / 2) as u32,
            },
        },
    ]
}

/// Adds the ceiling and the floor to the things to draw.
pub fn DrawCeilingAndFloor(windowParams: WindowParams, commands: &mut Vec<DrawCommand>)
    requires
        windowParams.width <= MAX_SCREEN_DIM,
        windowParams.height <= MAX_SCREEN_DIM,
    ensures
        final(commands)@ == old(commands)@ + ceiling_and_floor(windowParams),
{
    commands.push(
        DrawCommand::Fill {
            color: Color { r: 50, g: 50, b: 50, a: 255 },
            rect: Rect::New(0, 0, windowParams.width as u32, (windowParams.height / 2) as u32),
        },
    );
    commands.push(
        DrawCommand::Fill {
            color: Color { r: 96, g: 96, b: 96, a: 255 },
            rect: Rect::New(
                0,
                (windowParams.height / 2) as i32,
                windowParams.width as u32,
                (windowParams.height / 2) as u32,
            ),
        },
    );
}

} // verus!
