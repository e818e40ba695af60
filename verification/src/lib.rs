//! Cairus: the verified core of a 2D graphics library modelled on cairo.

pub mod bo_trap;
pub mod common_geometry;
pub mod compositor;
pub mod context;
pub mod convolution;
pub mod float_bits;
pub mod imagecrate;
pub mod path;
pub mod splines;
pub mod status;
pub mod surfaces;
pub mod trapezoid_rasterizer;
