use vstd::prelude::*;
use vstd::slice::slice_to_vec;

use crate::error::{CaptureError, DeviceOpenError, FormatError};
use crate::jpeg::{jpeg_of, yuyv_to_jpeg, DEVICE_JPEG_QUALITY, JPEG_MAX_SIDE};
use crate::pixel::rgb_of_yuyv;

verus! {

/// The capture format a device was configured with.
#[derive(Clone, Copy, Debug, PartialEq, Eq, Structural)]
pub enum PixelFormat {
    /// Compressed frames that are already JPEG images (preferred).
    Mjpeg,
    /// Raw packed YUYV 4:2:2 frames (fallback).
    Yuyv,
}

/// Whole frames per second requested from a device for a rate given in
/// millihertz: the rate is raised to at least 1 Hz and rounded to nearest,
/// halves up, saturating at `u32::MAX`.
pub open spec fn fps_of(frame_rate_millihertz: u64) -> u32 {
    let r = if frame_rate_millihertz < 1000 { 1000 } else { frame_rate_millihertz as int };
    let rounded = r / 1000 + if r % 1000 >= 500 { 1int } else { 0int };
    if rounded > u32::MAX { u32::MAX } else { rounded as u32 }
}

/// Computes `fps_of`.
pub fn fps_for(frame_rate_millihertz: u64) -> (r: u32)
    ensures
        r == fps_of(frame_rate_millihertz),
        r >= 1,
{
    let rate: u64 = if frame_rate_millihertz < 1000 { 1000 } else { frame_rate_millihertz };
    let rounded: u64 = rate / 1000 + if rate % 1000 >= 500 { 1 } else { 0 };
    if rounded > u32::MAX as u64 {
        u32::MAX
    } else {
        rounded as u32
    }
}

/// One attempt to start capture on a device.
#[derive(Clone, Copy, Debug, PartialEq, Eq, Structural)]
pub struct FormatRequest {
    pub width: u32,
    pub height: u32,
    /// Frames per second; the frame interval asked for is `1 / fps` seconds.
    pub fps: u32,
    pub format: PixelFormat,
}

/// Format negotiation with a capture device: MJPEG is asked for first, and
/// YUYV at the same resolution and rate only after MJPEG was refused.
#[derive(Clone, Debug)]
pub struct Negotiator {
    pub width: u32,
    pub height: u32,
    pub fps: u32,
    /// What the device said when it refused MJPEG, once it has.
    pub preferred_error: Option<String>,
}

/// What to do after a device answered a `FormatRequest`.
#[derive(Debug)]
pub enum NegotiationStep {
    /// Ask the device again with `request()` of this negotiator.
    Retry(Negotiator),
    /// The device is capturing in the camera's format.
    Ready(V4l2Camera),
    /// Both formats were refused.
    Failed(DeviceOpenError),
}

impl Negotiator {
    /// Starts a negotiation for the given resolution and frame rate (in millihertz).
    pub fn new(width: u32, height: u32, frame_rate_millihertz: u64) -> (r: Self)
        ensures
            r.width == width,
            r.height == height,
            r.fps == fps_of(frame_rate_millihertz),
            r.preferred_error is None,
    {
        Negotiator { width, height, fps: fps_for(frame_rate_millihertz), preferred_error: None }
    }

    /// The format the device is to be asked for next.
    pub fn request(&self) -> (r: FormatRequest)
        ensures
            r.width == self.width,
            r.height == self.height,
            r.fps == self.fps,
            r.format == (if self.preferred_error is None {
                PixelFormat::Mjpeg
            } else {
                PixelFormat::Yuyv
            }),
    {
        let format = match self.preferred_error {
            None => PixelFormat::Mjpeg,
            Some(_) => PixelFormat::Yuyv,
        };
        FormatRequest { width: self.width, height: self.height, fps: self.fps, format }
    }

    /// Takes the device's answer to `request()`. A refused MJPEG request is
    /// retried as YUYV; a refused YUYV request fails with both refusals.
    pub fn on_result(self, result: Result<(), String>) -> (r: NegotiationStep)
        ensures
            match (self.preferred_error, result) {
                (None, Ok(())) => r matches NegotiationStep::Ready(c) && c.format() == PixelFormat::Mjpeg
                    && c.frame_width() == self.width && c.frame_height() == self.height,
                (None, Err(e)) => r matches NegotiationStep::Retry(n) && n.preferred_error == Some(e)
                    && n.width == self.width && n.height == self.height && n.fps == self.fps,
                (Some(_), Ok(())) => r matches NegotiationStep::Ready(c) && c.format() == PixelFormat::Yuyv
                    && c.frame_width() == self.width && c.frame_height() == self.height,
                (Some(e1), Err(e2)) => r == NegotiationStep::Failed(
                    DeviceOpenError { preferred: e1, fallback: e2 },
                ),
            },
    {
        match (self.preferred_error, result) {
            (None, Ok(())) => NegotiationStep::Ready(
                V4l2Camera { width: self.width, height: self.height, pixel_format: PixelFormat::Mjpeg },
            ),
            (None, Err(e)) => NegotiationStep::Retry(
                Negotiator { width: self.width, height: self.height, fps: self.fps, preferred_error: Some(e) },
            ),
            (Some(_), Ok(())) => NegotiationStep::Ready(
                V4l2Camera { width: self.width, height: self.height, pixel_format: PixelFormat::Yuyv },
            ),
            (Some(e1), Err(e2)) => NegotiationStep::Failed(DeviceOpenError { preferred: e1, fallback: e2 }),
        }
    }
}

/// A capture device's negotiated settings. The format is fixed when
/// negotiation succeeds and never changes afterwards.
#[derive(Clone, Copy, Debug)]
pub struct V4l2Camera {
    width: u32,
    height: u32,
    pixel_format: PixelFormat,
}

impl V4l2Camera {
    /// The negotiated format.
    pub closed spec fn format(&self) -> PixelFormat {
        self.pixel_format
    }

    /// Width of the frames, in pixels.
    pub closed spec fn frame_width(&self) -> u32 {
        self.width
    }

    /// Height of the frames, in pixels.
    pub closed spec fn frame_height(&self) -> u32 {
        self.height
    }

    /// The negotiated format.
    pub fn pixel_format(&self) -> (r: PixelFormat)
        ensures
            r == self.format(),
    {
        self.pixel_format
    }

    /// Width of the frames, in pixels.
    pub fn width(&self) -> (r: u32)
        ensures
            r == self.frame_width(),
    {
        self.width
    }

    /// Height of the frames, in pixels.
    pub fn height(&self) -> (r: u32)
        ensures
            r == self.frame_height(),
    {
        self.height
    }

    /// Turns one frame read from the device into a JPEG image: compressed
    /// frames pass through unchanged, raw frames are converted and encoded.
    pub fn frame_to_jpeg(&self, raw: &[u8]) -> (r: Result<Vec<u8>, CaptureError>)
        requires
            self.format() == PixelFormat::Yuyv ==> self.frame_width() * self.frame_height() * 3
                <= usize::MAX,
        ensures
            self.format() == PixelFormat::Mjpeg ==> (r matches Ok(b) && b@ == raw@),
            self.format() == PixelFormat::Yuyv && raw@.len() < self.frame_width()
                * self.frame_height() * 2 ==> r == Err::<Vec<u8>, CaptureError>(
                CaptureError::Format(
                    FormatError {
                        actual: raw@.len() as usize,
                        expected: (self.frame_width() * self.frame_height() * 2) as usize,
                    },
                ),
            ),
            self.format() == PixelFormat::Yuyv && raw@.len() >= self.frame_width()
                * self.frame_height() * 2 ==> (r is Ok <==> (self.frame_width() <= JPEG_MAX_SIDE
                && self.frame_height() <= JPEG_MAX_SIDE)),
            r matches Ok(b) ==> (self.format() == PixelFormat::Yuyv ==> b@ == jpeg_of(
                rgb_of_yuyv(raw@, self.frame_width() * self.frame_height()),
                self.frame_width(),
                self.frame_height(),
                DEVICE_JPEG_QUALITY,
            )),
            r matches Err(e) ==> (raw@.len() >= self.frame_width() * self.frame_height() * 2
                ==> e is Encode),
    {
        match self.pixel_format {
            PixelFormat::Mjpeg => Ok(slice_to_vec(raw)),
            PixelFormat::Yuyv => yuyv_to_jpeg(raw, self.width, self.height),
        }
    }
}

} // verus!
