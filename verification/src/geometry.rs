//! Plain geometric values shared by the input translator, the window
//! adapter and the session controller.
//!
//! The GUI toolkit reports pointer positions and scroll deltas as
//! fractional device-independent pixels. The bridge stores such quantities
//! in thousandths of a pixel ("milli-pixels"), so that the scroll scaling
//! rule and the pixel truncation the engine expects stay exact integer
//! arithmetic. The unverified shell converts the toolkit's fractional
//! values to milli-pixels at the callback boundary.

use vstd::prelude::*;

verus! {

/// Number of fixed-point units in one device-independent pixel.
pub const MILLIS_PER_PIXEL: i64 = 1000;

/// A position in milli-pixels (thousandths of a device-independent pixel).
#[derive(Clone, Copy, Debug, PartialEq, Eq, Structural)]
pub struct MilliPoint {
    pub x: i64,
    pub y: i64,
}

/// A scroll delta in milli-pixels per axis.
#[derive(Clone, Copy, Debug, PartialEq, Eq, Structural)]
pub struct MilliVec {
    pub dx: i64,
    pub dy: i64,
}

/// A position in whole device-independent pixels.
#[derive(Clone, Copy, Debug, PartialEq, Eq, Structural)]
pub struct PixelPoint {
    pub x: i64,
    pub y: i64,
}

/// A size in framebuffer (device) pixels: logical size times HiDPI scale.
#[derive(Clone, Copy, Debug, PartialEq, Eq, Structural)]
pub struct FramebufferSize {
    pub width: u32,
    pub height: u32,
}

/// A size in logical (device-independent) pixels, as the toolkit reports it.
#[derive(Clone, Copy, Debug, PartialEq, Eq, Structural)]
pub struct LogicalSize {
    pub width: u32,
    pub height: u32,
}

/// A window position on the screen, in the toolkit's coordinates.
#[derive(Clone, Copy, Debug, PartialEq, Eq, Structural)]
pub struct ScreenPosition {
    pub x: i32,
    pub y: i32,
}

/// The framebuffer-pixel rectangle the engine composites into: always
/// anchored at the origin of the surface.
#[derive(Clone, Copy, Debug, PartialEq, Eq, Structural)]
pub struct WindowRect {
    pub origin_x: u32,
    pub origin_y: u32,
    pub width: u32,
    pub height: u32,
}

/// Truncation of a milli-pixel quantity to whole pixels, rounding toward
/// zero — the conversion applied to the stored pointer position when a
/// scroll event needs a whole-pixel location.
pub open spec fn milli_to_pixel(v: int) -> int {
    if v >= 0 {
        v / (MILLIS_PER_PIXEL as int)
    } else {
        -((-v) / (MILLIS_PER_PIXEL as int))
    }
}

/// Truncates a milli-pixel coordinate to whole pixels, toward zero.
pub fn pixel_of_milli(v: i64) -> (p: i64)
    requires
        v > i64::MIN,
    ensures
        p == milli_to_pixel(v as int),
{
    if v >= 0 {
        ((v as u64) / (MILLIS_PER_PIXEL as u64)) as i64
    } else {
        let m: i64 = -v;
        -(((m as u64) / (MILLIS_PER_PIXEL as u64)) as i64)
    }
}

} // verus!
