//! Camera acquisition and MJPEG streaming core: pixel conversion, synthetic
//! frames, device format negotiation and multipart framing.

pub mod camera;
pub mod device;
pub mod error;
pub mod jpeg;
pub mod mock;
pub mod pixel;
pub mod stream;

pub use camera::Camera;
pub use device::{fps_for, FormatRequest, NegotiationStep, Negotiator, PixelFormat, V4l2Camera};
pub use error::{CaptureError, DeviceOpenError, FormatError};
pub use jpeg::{rgb_to_jpeg, yuyv_to_jpeg, DEVICE_JPEG_QUALITY, JPEG_MAX_SIDE};
pub use mock::{generate_frame, render_mock_rgb, MockCamera, MOCK_JPEG_QUALITY};
pub use pixel::yuyv_to_rgb;
pub use stream::{
    chunk_for, error_chunk, frame_chunk, frame_period_nanos, StreamAction, StreamPhase, StreamScheduler,
};
