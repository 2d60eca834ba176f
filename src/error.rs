use vstd::prelude::*;

verus! {

/// A raw frame that is too short for the resolution it was captured at.
#[derive(Clone, Copy, Debug, PartialEq, Eq, Structural)]
pub struct FormatError {
    /// Number of bytes the frame holds.
    pub actual: usize,
    /// Number of bytes the resolution needs (width * height * 2).
    pub expected: usize,
}

/// Why a single frame could not be produced.
#[derive(Debug)]
pub enum CaptureError {
    /// The device failed to deliver a frame.
    Device(String),
    /// The raw frame was malformed or undersized.
    Format(FormatError),
    /// The JPEG encoder refused the image.
    Encode(image::ImageError),
}

/// Why a capture device could not be brought up in either format.
#[derive(Clone, Debug, PartialEq, Eq)]
pub struct DeviceOpenError {
    /// What the device said when asked for the compressed format.
    pub preferred: String,
    /// What the device said when asked for the raw format.
    pub fallback: String,
}

} // verus!
