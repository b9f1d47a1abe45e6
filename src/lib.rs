//! Verified pieces of a small path tracer that do not need floating point:
//! the bounce recursion of the radiance estimate (`path`), the row-major
//! scan that turns per-pixel shading into a packed RGB stream (`raster`), and
//! the text header of a plain PPM image (`ppm`). The arithmetic on rays and
//! colors is supplied by the caller through closures.
pub mod path;
pub mod ppm;
pub mod raster;
