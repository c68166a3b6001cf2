//! A software ray tracer with a verified core.
//!
//! All geometry and shading is carried out in signed 16.16 fixed-point
//! arithmetic, so that every numeric step has an exact mathematical
//! specification.  A host shell drives the core once per frame: it feeds the
//! camera a viewport size and navigation input, and displays the pixel
//! buffer that the renderer returns.

pub mod camera;
pub mod fx;
pub mod mat;
pub mod ray;
pub mod renderer;
pub mod scene;
pub mod vec;
