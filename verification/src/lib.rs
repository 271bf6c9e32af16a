//! A software 3D rasterizer over fixed-point arithmetic: camera projection,
//! per-vertex point-light shading, a generic lazy interpolation engine, and a
//! depth-buffered scan-line polygon fill.

pub mod camera;
pub mod fixed;
pub mod painter;
pub mod pixels;
pub mod operations;
pub mod primitives;
pub mod shaders;
pub mod vectors;
pub mod world;
