//! Pixel-format and renderer descriptors of the compositor's render
//! interface, and the stride computation for ARGB32 pixel buffers.

use vstd::prelude::*;

verus! {

/// Number of bits per pixel (RGBA8888).
pub const BITS_PER_PIXEL: u32 = 32;

/// Allowed pixel formats.
#[allow(non_camel_case_types)]
#[derive(Debug, Clone, Copy, Eq, PartialEq, Structural)]
pub enum wlc_pixel_format {
    /// RGBA8888 format
    WLC_RGBA8888,
}

/// Enabled renderers.
#[allow(non_camel_case_types)]
#[derive(Debug, Clone, Copy, Eq, PartialEq, Structural)]
pub enum wlc_renderer {
    /// Render using GLES2
    WLC_RENDERER_GLES2,
    /// Do not render (headless)
    WLC_NO_RENDERER,
}

/// Surface formats a client buffer may carry.
#[allow(non_camel_case_types)]
#[allow(missing_docs)]
#[derive(Debug, Clone, Copy, Eq, PartialEq, Structural)]
pub enum wlc_surface_format {
    SURFACE_RGB,
    SURFACE_RGBA,
    SURFACE_EGL,
    SURFACE_Y_UV,
    SURFACE_Y_U_V,
    SURFACE_Y_XUXV,
}

/// Calculates the stride in bytes of a row of an ARGB32-encoded buffer
/// `width` pixels wide: the row's pixel bits rounded up to whole bytes and
/// then up to the four-byte word alignment, which for 32 bits per pixel
/// comes to exactly four bytes per pixel.
pub fn calculate_stride(width: u32) -> (r: u32)
    requires
        BITS_PER_PIXEL * width + 7 <= u32::MAX,
    ensures
        r == 4 * width,
{
    let stride_alignment: u32 = 4;
    let bits: u32 = BITS_PER_PIXEL * width;
    let bytes: u32 = (bits + 7) / 8;
    assert(bytes == 4 * width);
    let summed: u32 = bytes + (stride_alignment - 1);
    let r = summed & !(stride_alignment - 1);
    proof {
        let s: u32 = summed;
        assert(s % 4 == 3 ==> (s & !3u32) == s - 3) by (bit_vector);
        assert(summed % 4 == 3);
    }
    r
}

} // verus!
