use vstd::prelude::*;

verus! {

/// Number of fixed-point subunits in one tile edge. Every world coordinate,
/// direction component, distance and fraction in this crate is an integer
/// count of these subunits, so `UNIT` stands for `1.0`.
pub const UNIT: i64 = 65536;

/// Half a tile edge, in subunits.
pub const HALF_UNIT: i64 = 32768;

/// Edge length, in texels, of every square texture.
pub const TEXTURE_PITCH: i32 = 64;

/// Colour key that marks transparent texels in sprite sheets.
pub const TRANSPARENCY_COLOR: u32 = 0xFF980088;

/// Largest magnitude of a vector component that the fixed-point vector
/// operations accept (32768 tiles).
pub const VEC_LIMIT: i64 = 2147483648;

/// Largest magnitude of a coordinate of a ray's origin (16384 tiles).
pub const COORD_LIMIT: i64 = 1073741824;

/// Largest magnitude of a component of the direction that a ray is given
/// and walks along (16 tiles).
pub const DIR_LIMIT: i64 = 1048576;

/// Largest magnitude of a tile index that a ray cursor can stand on.
pub const TILE_LIMIT: i32 = 32768;

/// Travel sense of a ray along the x axis.
#[derive(Copy, Clone, PartialEq, Eq, Structural, Debug)]
pub enum xDir_t {
    EAST,
    WEST,
    NONE,
}

/// Travel sense of a ray along the y axis.
#[derive(Copy, Clone, PartialEq, Eq, Structural, Debug)]
pub enum yDir_t {
    NORTH,
    SOUTH,
    NONE,
}

/// Sense of a turn about the vertical axis.
#[derive(Copy, Clone, PartialEq, Eq, Structural, Debug)]
pub enum swivelDir_t {
    COUNTER_CLOCKWISE,
    CLOCKWISE,
    NONE,
}

impl xDir_t {
    /// The unit step the sense stands for: `1` east, `-1` west, `0` none.
    pub open spec fn sign(self) -> int {
        match self {
            xDir_t::EAST => 1,
            xDir_t::WEST => -1,
            xDir_t::NONE => 0,
        }
    }

    /// The sense in which a coordinate changes when it changes by `d`.
    pub open spec fn of(d: int) -> xDir_t {
        if d > 0 {
            xDir_t::EAST
        } else if d < 0 {
            xDir_t::WEST
        } else {
            xDir_t::NONE
        }
    }

    pub fn Sign(self) -> (s: i32)
        ensures
            s == self.sign(),
    {
        match self {
            xDir_t::EAST => 1,
            xDir_t::WEST => -1,
            xDir_t::NONE => 0,
        }
    }

    pub fn Of(d: i64) -> (dir: xDir_t)
        ensures
            dir == xDir_t::of(d as int),
    {
        if d > 0 {
            xDir_t::EAST
        } else if d < 0 {
            xDir_t::WEST
        } else {
            xDir_t::NONE
        }
    }
}

impl yDir_t {
    /// The unit step the sense stands for: `1` north, `-1` south, `0` none.
    pub open spec fn sign(self) -> int {
        match self {
            yDir_t::NORTH => 1,
            yDir_t::SOUTH => -1,
            yDir_t::NONE => 0,
        }
    }

    /// The sense in which a coordinate changes when it changes by `d`.
    pub open spec fn of(d: int) -> yDir_t {
        if d > 0 {
            yDir_t::NORTH
        } else if d < 0 {
            yDir_t::SOUTH
        } else {
            yDir_t::NONE
        }
    }

    pub fn Sign(self) -> (s: i32)
        ensures
            s == self.sign(),
    {
        match self {
            yDir_t::NORTH => 1,
            yDir_t::SOUTH => -1,
            yDir_t::NONE => 0,
        }
    }

    pub fn Of(d: i64) -> (dir: yDir_t)
        ensures
            dir == yDir_t::of(d as int),
    {
        if d > 0 {
            yDir_t::NORTH
        } else if d < 0 {
            yDir_t::SOUTH
        } else {
            yDir_t::NONE
        }
    }
}

impl swivelDir_t {
    /// The sign of the turn angle: `1` counter-clockwise, `-1` clockwise.
    pub open spec fn sign(self) -> int {
        match self {
            swivelDir_t::COUNTER_CLOCKWISE => 1,
            swivelDir_t::CLOCKWISE => -1,
            swivelDir_t::NONE => 0,
        }
    }

    pub fn Sign(self) -> (s: i32)
        ensures
            s == self.sign(),
    {
        match self {
            swivelDir_t::COUNTER_CLOCKWISE => 1,
            swivelDir_t::CLOCKWISE => -1,
            swivelDir_t::NONE => 0,
        }
    }
}

impl Default for xDir_t {
    fn default() -> (d: Self)
        ensures
            d == xDir_t::NONE,
    {
        xDir_t::NONE
    }
}

impl Default for yDir_t {
    fn default() -> (d: Self)
        ensures
            d == yDir_t::NONE,
    {
        yDir_t::NONE
    }
}

impl Default for swivelDir_t {
    fn default() -> (d: Self)
        ensures
            d == swivelDir_t::NONE,
    {
        swivelDir_t::NONE
    }
}

} // verus!
