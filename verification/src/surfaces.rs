//! Surfaces: the raster containers that contexts draw on.

use vstd::prelude::*;

verus! {

/// Pixel formats of a surface, after cairo's `cairo_format_t`.
#[allow(non_camel_case_types)]
#[derive(Debug, Clone, Copy, PartialEq, Eq, Structural)]
pub enum Format {
    Invalid,
    ARGB32,
    RGB24,
    A8,
    A1,
    RGB16_565,
    RGB30,
}

/// Kinds of drawing target, after cairo's `cairo_surface_type_t`.
#[derive(Debug, Clone, Copy, PartialEq, Eq, Structural)]
pub enum Type {
    Image,
    Pdf,
    Ps,
    Xlib,
    Xcb,
    Glitz,
    Quartz,
    Win32,
    Beos,
    Directfb,
    Svg,
    Os2,
    Win32Printing,
    QuartzImage,
    Script,
    Qt,
    Recording,
    Vg,
    Gl,
    Drm,
    Tee,
    Xml,
    Skia,
    Subsurface,
    Cogl,
}

} // verus!
