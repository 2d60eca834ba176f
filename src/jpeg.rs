use vstd::prelude::*;

use crate::error::{CaptureError, FormatError};
use crate::pixel::{rgb_of_yuyv, yuyv_to_rgb};

verus! {

/// The error type of the `image` crate's encoders.
#[verifier::external_type_specification]
#[verifier::external_body]
pub struct ExImageError(image::ImageError);

/// The baseline JPEG stream that the `image` crate's encoder writes for a
/// packed RGB image of the given size at the given quality.
pub uninterp spec fn jpeg_of(rgb: Seq<u8>, width: u32, height: u32, quality: u8) -> Seq<u8>;

/// Largest side that a baseline JPEG frame header can hold.
pub const JPEG_MAX_SIDE: u32 = 65535;

/// Relies on `image::codecs::jpeg::JpegEncoder::new_with_quality` and
/// `JpegEncoder::encode` with `ColorType::Rgb8`: the encoder panics unless the
/// buffer holds exactly three bytes per pixel, fails only when a side does not
/// fit a 16-bit frame header (writing into a `Vec` never fails), and otherwise
/// writes a JPEG stream determined by its inputs.
#[verifier::external_body]
fn encode_jpeg(rgb: &Vec<u8>, width: u32, height: u32, quality: u8) -> (r: Result<Vec<u8>, image::ImageError>)
    requires
        rgb@.len() == width * height * 3,
    ensures
        r is Ok <==> (width <= JPEG_MAX_SIDE && height <= JPEG_MAX_SIDE),
        r matches Ok(b) ==> b@ == jpeg_of(rgb@, width, height, quality),
{
    let mut out: Vec<u8> = Vec::new();
    let mut encoder = image::codecs::jpeg::JpegEncoder::new_with_quality(&mut out, quality);
    encoder.encode(rgb, width, height, image::ColorType::Rgb8)?;
    Ok(out)
}

/// Encodes a packed RGB image as JPEG, mapping the encoder's failure into a
/// capture error.
pub fn rgb_to_jpeg(rgb: &Vec<u8>, width: u32, height: u32, quality: u8) -> (r: Result<Vec<u8>, CaptureError>)
    requires
        rgb@.len() == width * height * 3,
    ensures
        r is Ok <==> (width <= JPEG_MAX_SIDE && height <= JPEG_MAX_SIDE),
        r matches Ok(b) ==> b@ == jpeg_of(rgb@, width, height, quality),
        r matches Err(e) ==> e is Encode,
{
    match encode_jpeg(rgb, width, height, quality) {
        Ok(b) => Ok(b),
        Err(e) => Err(CaptureError::Encode(e)),
    }
}

/// Quality at which frames from a raw-format device are encoded.
pub const DEVICE_JPEG_QUALITY: u8 = 85;

/// Converts a raw YUYV frame to RGB and encodes it as JPEG at quality 85.
///
/// An undersized frame fails with a `FormatError` and nothing is encoded.
pub fn yuyv_to_jpeg(raw: &[u8], width: u32, height: u32) -> (r: Result<Vec<u8>, CaptureError>)
    requires
        width * height * 3 <= usize::MAX,
    ensures
        raw@.len() < width * height * 2 ==> r == Err::<Vec<u8>, CaptureError>(
            CaptureError::Format(
                FormatError { actual: raw@.len() as usize, expected: (width * height * 2) as usize },
            ),
        ),
        raw@.len() >= width * height * 2 ==> (r is Ok <==> (width <= JPEG_MAX_SIDE
            && height <= JPEG_MAX_SIDE)),
        r matches Ok(b) ==> b@ == jpeg_of(
            rgb_of_yuyv(raw@, width * height),
            width,
            height,
            DEVICE_JPEG_QUALITY,
        ),
        r matches Err(e) ==> (raw@.len() >= width * height * 2 ==> e is Encode),
{
    let rgb = yuyv_to_rgb(raw, width, height)?;
    rgb_to_jpeg(&rgb, width, height, DEVICE_JPEG_QUALITY)
}

} // verus!
