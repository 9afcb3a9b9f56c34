//! Constants of the ED037TC1 panel and the outcomes that the driver reports.

use vstd::prelude::*;

verus! {

/// Number under which the kernel routes screen calls to this driver.
pub const DRIVER_NUM: usize = 0x90001;

/// Panel width in pixels.
pub const WIDTH: usize = 280;

/// Panel height in pixels.
pub const HEIGHT: usize = 480;

/// Monochrome frame buffer bytes: 280 x 480 pixels, eight to a byte.
pub const BUF_LEN: usize = 16800;

/// Why a driver could not be constructed.
#[derive(Debug, Clone, Copy, PartialEq, Eq, Structural)]
pub enum InitError {
    /// The region handed in holds fewer than [`BUF_LEN`] bytes.
    BufferTooSmall,
}

/// Why a request was turned down, or how a transfer failed.
#[derive(Debug, Clone, Copy, PartialEq, Eq, Structural)]
pub enum ErrorCode {
    /// A sequence is in flight; retry after its completion is reported.
    Busy,
    /// An argument does not fit the frame.
    Invalid,
    /// The panel cannot perform the operation.
    NoSupport,
    /// The bus reported a failure during a sequence.
    Fail,
}

/// How one pixel is stored.
#[derive(Debug, Clone, Copy, PartialEq, Eq, Structural)]
pub enum ScreenPixelFormat {
    /// One bit per pixel.
    Mono,
    /// Eight bits per pixel: three red, three green, two blue.
    Rgb233,
    /// Sixteen bits per pixel.
    Rgb565,
    /// Twenty-four bits per pixel.
    Rgb888,
    /// Thirty-two bits per pixel, alpha first.
    Argb8888,
}

/// How the image is turned on the panel.
#[derive(Debug, Clone, Copy, PartialEq, Eq, Structural)]
pub enum ScreenRotation {
    Normal,
    Rotated90,
    Rotated180,
    Rotated270,
}

/// The frame holds exactly one bit for each pixel of the panel.
pub proof fn lemma_frame_holds_every_pixel()
    ensures
        BUF_LEN * 8 == WIDTH * HEIGHT,
        BUF_LEN == (WIDTH * HEIGHT) / 8,
{
}

} // verus!
