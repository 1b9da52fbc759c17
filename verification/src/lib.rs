//! A raycaster over a tile grid: rays walk the grid from tile to tile, the
//! tiles answer them, and the answers become the walls and sprites of a
//! frame.
//!
//! Nothing here uses floating point. World coordinates, directions,
//! distances and fractions are fixed-point numbers: integers that count
//! subunits, of which `utils::conventions::UNIT` make up one tile edge.
//! Beside its direction of unit length a ray keeps the direction that it
//! was given, and walks along that: the walk through the grid compares
//! crossings by cross-multiplication and finds corners exactly. Angles
//! enter as cosine and sine.
//!
//! The executable functions carry contracts over mathematical models, and
//! a few laws of the walk, of doors and of frames are proved as lemmas:
//! see `utils::dda`, `utils::walk`, `tiles` and `engine::harvest`.

#![allow(non_snake_case)]
#![allow(non_camel_case_types)]
#![allow(non_upper_case_globals)]

pub mod animation;
pub mod enemy;
pub mod engine;
pub mod inputs_buffer;
pub mod map;
pub mod multimedia;
pub mod player;
pub mod tiles;
pub mod utils;
