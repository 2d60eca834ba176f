use vstd::prelude::*;

use crate::error::CaptureError;

verus! {

/// A source of JPEG frames.
///
/// Implementations own whatever state producing a frame needs; callers that
/// share one camera serialise access through `&mut self`.
pub trait Camera {
    /// Whether the camera is able to attempt another capture.
    spec fn can_capture(&self) -> bool;

    /// Produces one complete JPEG image, or the reason this frame failed.
    fn capture_frame(&mut self) -> (r: Result<Vec<u8>, CaptureError>)
        requires
            old(self).can_capture(),
    ;
}

} // verus!
