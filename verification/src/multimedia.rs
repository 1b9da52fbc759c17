use vstd::prelude::*;
use crate::tiles::TextureHandle;
use crate::utils::conventions::{UNIT, VEC_LIMIT};
use crate::utils::dda::{wall_type_at, wallType_t, RayCursor};

verus! {

/// The sheet a texture is cut from.
#[derive(Copy, Clone, PartialEq, Eq, Structural, Hash, Debug)]
pub enum TextureType {
    WALL,
    OBJECT,
    GUARD,
    OFFICER,
    SS,
    WEAPON,
}

/// Size and refresh rate of the display.
#[derive(Copy, Clone, PartialEq, Eq, Structural, Debug)]
pub struct DisplayParams {
    pub width: usize,
    pub height: usize,
    pub refreshRate: usize,
}

/// Size of the window that frames are drawn into.
#[derive(Copy, Clone, PartialEq, Eq, Structural, Debug)]
pub struct WindowParams {
    pub width: usize,
    pub height: usize,
}

/// An axis-aligned rectangle of texels or of pixels.
#[derive(Copy, Clone, PartialEq, Eq, Structural, Debug)]
pub struct Rect {
    pub x: i32,
    pub y: i32,
    pub w: u32,
    pub h: u32,
}

impl Rect {
    pub fn New(x: i32, y: i32, w: u32, h: u32) -> (r: Self)
        ensures
            r == (Rect { x, y, w, h }),
    {
        Rect { x, y, w, h }
    }
}

/// A colour with its opacity.
#[derive(Copy, Clone, PartialEq, Eq, Structural, Debug)]
pub struct Color {
    pub r: u8,
    pub g: u8,
    pub b: u8,
    pub a: u8,
}

/// One thing to draw.
#[derive(Copy, Clone, PartialEq, Eq, Structural, Debug)]
pub enum DrawCommand {
    /// Fill `rect` of the screen with `color`.
    Fill { color: Color, rect: Rect },
    /// Copy the part `src` of `texture` to the part `dst` of the screen.
    Copy { texture: TextureHandle, src: Rect, dst: Rect },
}

/// Largest width and height of a window, in pixels.
pub const MAX_SCREEN_DIM: usize = 16384;

/// What turns the scene into pixels. `projPlaneDist` is the distance of
/// the projection plane from the eye, in pixels and as a fixed-point
/// number. `castingRayAngles` holds, for each screen column, the cosine and
/// the sine of the angle between the ray of that column and the direction
/// of view. `renderHeightProprConst` is the height, in pixels and as a
/// fixed-point number, of a wall at distance one.
#[derive(Clone, Debug)]
pub struct RenderParams {
    pub projPlaneDist: i64,
    pub castingRayAngles: Vec<(i64, i64)>,
    pub renderHeightProprConst: i64,
}

impl RenderParams {
    /// There is an angle for each of `width` columns, every angle is less
    /// than a quarter turn to either side, and the two constants are not
    /// negative and within the machine limits.
    pub open spec fn wf(self, width: int) -> bool {
        &&& self.castingRayAngles@.len() == width
        &&& forall|x: int|
            0 <= x < width ==> 0 < (#[trigger] self.castingRayAngles@[x]).0 <= UNIT && -UNIT
                <= self.castingRayAngles@[x].1 <= UNIT
        &&& 0 <= self.projPlaneDist <= VEC_LIMIT
        &&& 0 <= self.renderHeightProprConst <= VEC_LIMIT
    }

    pub fn New(projPlaneDist: i64, castingRayAngles: Vec<(i64, i64)>, renderHeightProprConst: i64) -> (p:
        Self)
        ensures
            p.projPlaneDist == projPlaneDist,
            p.castingRayAngles == castingRayAngles,
            p.renderHeightProprConst == renderHeightProprConst,
    {
        RenderParams { projPlaneDist, castingRayAngles, renderHeightProprConst }
    }
}

/// The texture for a face of the orientation `wallType`: faces that run
/// north-south, and corners, are lit; faces that run east-west are not.
pub open spec fn light_texture(
    wallType: wallType_t,
    litTexture: TextureHandle,
    unlitTexture: TextureHandle,
) -> TextureHandle {
    match wallType {
        wallType_t::HORIZONTAL => unlitTexture,
        _ => litTexture,
    }
}

/// Picks the lit or the unlit texture by the face under the cursor's hit
/// point, which must lie on a face.
pub fn LightTexture(rayCursor: &mut RayCursor, litTexture: TextureHandle, unlitTexture: TextureHandle) -> (t:
    TextureHandle)
    requires
        old(rayCursor).wf(),
        wall_type_at(old(rayCursor).hitPoint.x as int, old(rayCursor).hitPoint.y as int)
            != wallType_t::NONE,
    ensures
        t == light_texture(
            wall_type_at(old(rayCursor).hitPoint.x as int, old(rayCursor).hitPoint.y as int),
            litTexture,
            unlitTexture,
        ),
        *final(rayCursor) == old(rayCursor).recalled(),
        final(rayCursor).wf(),
{
    match rayCursor.GetWallType() {
        wallType_t::HORIZONTAL => unlitTexture,
        wallType_t::VERTICAL => litTexture,
        wallType_t::CORNER => litTexture,
        wallType_t::NONE => litTexture,
    }
}

} // verus!
