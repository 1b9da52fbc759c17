pub mod conventions;
pub mod misc_math;
pub mod vec2d;
pub mod ray;
pub mod dda;
pub mod walk;
pub mod csv;
