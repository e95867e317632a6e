//! Decoding of the pictures that stand for a simulated profile and for the logo.

use vstd::prelude::*;
use image::GenericImageView;

verus! {

#[verifier::external_type_specification]
#[verifier::external_body]
pub struct ExIoError(std::io::Error);

#[verifier::external_type_specification]
#[verifier::external_body]
pub struct ExImageError(image::ImageError);

/// A decoded picture: its size in pixels and its pixels as RGBA bytes, row by row.
#[derive(Debug, Clone)]
pub struct DecodedImage {
    pub width: u32,
    pub height: u32,
    pub rgba: Vec<u8>,
}

/// What decoding the bytes of an encoded picture gives: its width, height and
/// RGBA pixels, or `None` where the bytes are no picture that can be decoded.
pub uninterp spec fn decoded_picture(bytes: Seq<u8>) -> Option<(u32, u32, Seq<u8>)>;

/// Relies on `image::load_from_memory` (format guessed from the bytes, then
/// decoded), with `GenericImageView::dimensions` and `DynamicImage::to_rgba8`
/// reading the result out: the outcome depends on the bytes alone.
#[verifier::external_body]
fn decode_rgba(bytes: &[u8]) -> (r: Result<DecodedImage, image::ImageError>)
    ensures
        match r {
            Ok(img) => decoded_picture(bytes@) == Some((img.width, img.height, img.rgba@)),
            Err(_) => decoded_picture(bytes@).is_none(),
        },
{
    let img = image::load_from_memory(bytes)?;
    let (width, height) = img.dimensions();
    Ok(DecodedImage { width, height, rgba: img.to_rgba8().into_raw() })
}

/// Relies on `Display` of `std::io::Error`, for a message.
#[verifier::external_body]
fn io_error_text(e: &std::io::Error) -> (r: String) {
    e.to_string()
}

/// Relies on `Display` of `image::ImageError`, for a message.
#[verifier::external_body]
fn image_error_text(e: &image::ImageError) -> (r: String) {
    e.to_string()
}

/// Why a picture could not be had.
#[derive(Debug)]
pub enum ImageLogicError {
    IoError(std::io::Error),
    ImageError(image::ImageError),
}

pub open spec fn image_error_prefix(e: &ImageLogicError) -> Seq<char> {
    match e {
        ImageLogicError::IoError(_) => "Failed to load image from path: "@,
        ImageLogicError::ImageError(_) => "Failed to decode image: "@,
    }
}

impl ImageLogicError {
    /// A message that names the kind of failure, followed by the cause.
    pub fn message(&self) -> (r: String)
        ensures
            r@.len() >= image_error_prefix(self).len(),
            r@.take(image_error_prefix(self).len() as int) == image_error_prefix(self),
    {
        let (mut s, cause) = match self {
            ImageLogicError::IoError(e) => (String::from_str("Failed to load image from path: "), io_error_text(e)),
            ImageLogicError::ImageError(e) => (String::from_str("Failed to decode image: "), image_error_text(e)),
        };
        let ghost prefix = s@;
        s.append(cause.as_str());
        assert(s@.take(prefix.len() as int) =~= prefix);
        s
    }
}

/// Turns the outcome of reading a picture's file into the decoded picture:
/// a read error stays one, and read bytes are decoded.
pub fn load_image_bytes(read: Result<Vec<u8>, std::io::Error>) -> (r: Result<DecodedImage, ImageLogicError>)
    ensures
        match read {
            Err(_) => r matches Err(ImageLogicError::IoError(_)),
            Ok(bytes) => match decoded_picture(bytes@) {
                Some((w, h, px)) => r matches Ok(img) && img.width == w && img.height == h && img.rgba@ == px,
                None => r matches Err(ImageLogicError::ImageError(_)),
            },
        },
{
    match read {
        Err(e) => Err(ImageLogicError::IoError(e)),
        Ok(bytes) => match decode_rgba(bytes.as_slice()) {
            Ok(img) => Ok(img),
            Err(e) => Err(ImageLogicError::ImageError(e)),
        },
    }
}

} // verus!
