//! Procedural geometry and animation for a field of bordered rectangles.
//!
//! Coordinates are fixed-point integers: one document unit is `SCALE`
//! steps. The library builds one triangle mesh for the whole population,
//! advances the bounce physics frame by frame, and computes the exact
//! orthographic projection of the camera.
pub mod point;
pub mod mesh;
pub mod color;
pub mod brush;
pub mod rect;
pub mod document;
pub mod camera;
