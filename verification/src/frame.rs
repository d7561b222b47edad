//! The size and pixel format of one frame on the shared-memory channel.
use vstd::prelude::*;

verus! {

/// A pixel format of the channel: its wire code, and what the channel says of it.
#[derive(Clone, Copy, Debug, PartialEq, Eq, Structural)]
pub struct ProxyFormat {
    pub code: u32,
    pub bytes_per_pixel: u32,
    pub eight_bit: bool,
}

/// The extent and format a frame was captured at.
#[derive(Clone, Copy, Debug, PartialEq, Eq, Structural)]
pub struct FrameDims {
    pub width: u32,
    pub height: u32,
    pub format: ProxyFormat,
}

impl FrameDims {
    /// How many bytes the frame takes, tightly packed.
    pub open spec fn bytes(&self) -> int {
        (self.width * self.height) * self.format.bytes_per_pixel
    }

    /// The frame is not empty and the channel has room for it.
    pub open spec fn carried_by(&self, max_frame: u64) -> bool {
        0 < self.bytes() <= max_frame
    }
}

/// The frame's size in bytes, if it can be counted in a `u64`.
pub fn frame_bytes(dims: &FrameDims) -> (r: Option<u64>)
    ensures
        r == (if dims.bytes() <= u64::MAX {
            Some(dims.bytes() as u64)
        } else {
            None
        }),
        dims.bytes() >= 0,
        r matches Some(bytes) ==> bytes == dims.width * dims.height * dims.format.bytes_per_pixel,
        r is None ==> dims.width * dims.height * dims.format.bytes_per_pixel > u64::MAX,
{
    let width = dims.width as u64;
    let height = dims.height as u64;
    assert(0 <= width * height <= 0xffff_ffff * 0xffff_ffff) by (nonlinear_arith)
        requires
            0 <= width <= 0xffff_ffff,
            0 <= height <= 0xffff_ffff,
    ;
    let pixels: u64 = width * height;
    let bpp = dims.format.bytes_per_pixel as u64;
    assert(pixels * bpp >= 0) by (nonlinear_arith)
        requires
            pixels >= 0,
            bpp >= 0,
    ;
    pixels.checked_mul(bpp)
}

/// The frame's size, if there is anything to send and the channel has room for it.
pub fn carried_bytes(dims: &FrameDims, max_frame: u64) -> (r: Option<u64>)
    ensures
        r == (if dims.carried_by(max_frame) {
            Some(dims.bytes() as u64)
        } else {
            None
        }),
        r matches Some(bytes) ==> {
            &&& bytes == dims.width * dims.height * dims.format.bytes_per_pixel
            &&& 0 < bytes <= max_frame
        },
        0 < dims.width * dims.height * dims.format.bytes_per_pixel <= max_frame ==> r is Some,
{
    match frame_bytes(dims) {
        Some(bytes) => if bytes == 0 || bytes > max_frame {
            None
        } else {
            Some(bytes)
        },
        None => None,
    }
}

/// A frame is made of its pixels: each takes as many bytes as the format says, and stacking
/// two frames, or setting them side by side, adds up what they take.
pub proof fn frames_are_made_of_their_pixels(whole: FrameDims, part: FrameDims, rest: FrameDims)
    requires
        whole.format == part.format,
        whole.format == rest.format,
    ensures
        whole.width == 1 && whole.height == 1 ==> whole.bytes() == whole.format.bytes_per_pixel,
        whole.width == 0 || whole.height == 0 ==> whole.bytes() == 0,
        whole.width == part.width && whole.width == rest.width && whole.height == part.height
            + rest.height ==> whole.bytes() == part.bytes() + rest.bytes(),
        whole.height == part.height && whole.height == rest.height && whole.width == part.width
            + rest.width ==> whole.bytes() == part.bytes() + rest.bytes(),
        whole.bytes() == whole.width * whole.height * whole.format.bytes_per_pixel,
{
    let b = whole.format.bytes_per_pixel as int;
    let (w, pw, rw) = (whole.width as int, part.width as int, rest.width as int);
    let (h, ph, rh) = (whole.height as int, part.height as int, rest.height as int);
    assert(h == ph + rh ==> (w * h) * b == (w * ph) * b + (w * rh) * b) by (nonlinear_arith);
    assert(w == pw + rw ==> (w * h) * b == (pw * h) * b + (rw * h) * b) by (nonlinear_arith);
    assert(w == 0 || h == 0 ==> (w * h) * b == 0) by (nonlinear_arith);
    assert(w == 1 && h == 1 ==> (w * h) * b == b) by (nonlinear_arith);
}

/// The format decides how large a pixel is, and nothing else does: of two frames of the same
/// extent, one takes as many times the bytes as its pixels do, whatever the formats' codes.
pub proof fn sizes_follow_the_pixel_format(a: FrameDims, b: FrameDims)
    requires
        a.width == b.width,
        a.height == b.height,
    ensures
        a.bytes() * b.format.bytes_per_pixel == b.bytes() * a.format.bytes_per_pixel,
        a.format.bytes_per_pixel == 2 * b.format.bytes_per_pixel ==> a.bytes() == 2 * b.bytes(),
        a.format.bytes_per_pixel == b.format.bytes_per_pixel ==> a.bytes() == b.bytes(),
{
    let p = a.width * a.height;
    let (x, y) = (a.format.bytes_per_pixel as int, b.format.bytes_per_pixel as int);
    assert((p * x) * y == (p * y) * x) by (nonlinear_arith);
    assert(x == 2 * y ==> p * x == 2 * (p * y)) by (nonlinear_arith);
}

/// The channel carries a frame exactly if it has pixels and there is room for all of them;
/// a channel with more room carries at least as much.
pub proof fn carried_frames_fit(dims: FrameDims, max_frame: u64, larger: u64)
    requires
        max_frame <= larger,
    ensures
        dims.carried_by(max_frame) <==> 0 < dims.width * dims.height * dims.format.bytes_per_pixel
            <= max_frame,
        dims.carried_by(max_frame) ==> dims.carried_by(larger),
        dims.carried_by(max_frame) ==> dims.width > 0 && dims.height > 0
            && dims.format.bytes_per_pixel > 0,
{
    let (w, h, b) = (dims.width as int, dims.height as int, dims.format.bytes_per_pixel as int);
    assert(w == 0 || h == 0 || b == 0 ==> (w * h) * b == 0) by (nonlinear_arith);
}

} // verus!
