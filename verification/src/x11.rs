//! Decisions of the X11 window manager side of the compositor.
use crate::routing::OutputTarget;
use vstd::prelude::*;

verus! {

/// The geometry of an X11 window: location and size, in logical pixels.
#[derive(Clone, Copy, Debug, PartialEq, Eq, Structural)]
pub struct WindowGeometry {
    pub x: i32,
    pub y: i32,
    pub width: i32,
    pub height: i32,
}

/// The value of a `u32` reinterpreted as an `i32` (two's complement), as
/// Rust's `as` cast gives it.
pub open spec fn u32_as_i32(v: u32) -> int {
    if v <= i32::MAX {
        v as int
    } else {
        v - 0x1_0000_0000
    }
}

fn cast_to_i32(v: u32) -> (r: i32)
    ensures
        r == u32_as_i32(v),
{
    let r: i32 = v as i32;
    assert(v <= 0x7fff_ffff ==> r == v) by (bit_vector)
        requires
            r == v as i32,
    ;
    assert(v > 0x7fff_ffff ==> r == v - 0x1_0000_0000) by (bit_vector)
        requires
            r == v as i32,
    ;
    r
}

/// The geometry granted to an X11 configure request: the window keeps its
/// location (the compositor places windows), and takes the requested width
/// and height where given, each cast from `u32` to `i32` as Rust's `as`
/// does.
pub fn configure_request_geometry(current: WindowGeometry, w: Option<u32>, h: Option<u32>) -> (geo:
    WindowGeometry)
    ensures
        geo.x == current.x,
        geo.y == current.y,
        geo.width == match w {
            Some(w) => u32_as_i32(w),
            None => current.width as int,
        },
        geo.height == match h {
            Some(h) => u32_as_i32(h),
            None => current.height as int,
        },
{
    let mut geo = current;
    if let Some(w) = w {
        geo.width = cast_to_i32(w);
    }
    if let Some(h) = h {
        geo.height = cast_to_i32(h);
    }
    geo
}

/// The output whose size a fullscreen request takes: the secondary output
/// when the window is in the secondary space, else the primary output.
pub fn fullscreen_target(in_secondary_space: bool) -> (target: OutputTarget)
    ensures
        target == (if in_secondary_space {
            OutputTarget::Secondary
        } else {
            OutputTarget::Primary
        }),
{
    if in_secondary_space {
        OutputTarget::Secondary
    } else {
        OutputTarget::Primary
    }
}

} // verus!
