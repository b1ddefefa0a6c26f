//! The two encodings of a capture: lossless PNG for the file and for text
//! recognition, base64 for the way back to the caller.
//!
//! Both are computed by outside crates. This module gives each result a name,
//! and holds the only calls into those crates.

use vstd::prelude::*;

verus! {

/// `image::ImageError`, the encoder's account of a refusal. It is carried
/// from the encoder to [`image_error_text`]; nothing of it is read here.
#[verifier::external_type_specification]
#[verifier::external_body]
pub struct ExImageError(image::ImageError);

/// The PNG file that the `image` crate writes for an image of `width` by
/// `height` pixels whose rows hold four bytes a pixel, red, green, blue and
/// alpha; `None` where the encoder refuses the image.
pub uninterp spec fn png_encoding(width: u32, height: u32, rgba: Seq<u8>) -> Option<Seq<u8>>;

/// The text that the `base64` crate's standard engine, with the standard
/// alphabet and padding, gives for `bytes`.
pub uninterp spec fn base64_standard(bytes: Seq<u8>) -> Seq<char>;

/// The eight bytes that open every PNG file.
pub open spec fn png_signature() -> Seq<u8> {
    seq![137u8, 80u8, 78u8, 71u8, 13u8, 10u8, 26u8, 10u8]
}

/// The number of bytes that `width` by `height` pixels of four bytes take.
pub open spec fn rgba_len(width: u32, height: u32) -> int {
    4 * width * height
}

/// Whether a buffer of `len` bytes is the whole of an image of `width` by
/// `height` pixels: it holds exactly that many pixels, and the bytes of one
/// row can be counted on this machine.
pub open spec fn is_whole(width: u32, height: u32, len: int) -> bool {
    len == rgba_len(width, height) && 4 * width <= usize::MAX
}

/// Whether a buffer of `len` bytes is short enough for its base64 text to
/// have a length that the machine can count.
pub open spec fn fits_transport(len: int) -> bool {
    len <= 3 * (usize::MAX / 4)
}

/// The length of the padded base64 text for `len` bytes: four characters
/// for every three bytes begun.
pub open spec fn base64_len(len: int) -> int {
    4 * ((len + 2) / 3)
}

/// Calls `image::RgbaImage::from_raw`, wraps the buffer as
/// `image::DynamicImage::ImageRgba8` and calls `DynamicImage::write_to` on a
/// cursor over an empty vector, with `ImageFormat::Png`.
///
/// Claimed: the bytes written are a function of the dimensions and the pixel
/// bytes alone, named [`png_encoding`], and on success they open with the PNG
/// signature, which the encoder writes before anything else. The buffer must
/// be the whole image ([`is_whole`]): `from_raw` yields nothing for a shorter
/// one and where four times the width, or that times the height, overflows
/// `usize`, and the encoder asserts on a longer one.
#[verifier::external_body]
pub(crate) fn encode_png(width: u32, height: u32, rgba: Vec<u8>) -> (encoded: Result<
    Vec<u8>,
    image::ImageError,
>)
    requires
        is_whole(width, height, rgba@.len() as int),
    ensures
        match encoded {
            Ok(bytes) => png_encoding(width, height, rgba@) == Some(bytes@)
                && png_signature().is_prefix_of(bytes@),
            Err(_) => png_encoding(width, height, rgba@) is None,
        },
{
    let buffer = image::RgbaImage::from_raw(width, height, rgba).unwrap();
    let mut bytes: Vec<u8> = Vec::new();
    image::DynamicImage::ImageRgba8(buffer).write_to(
        &mut std::io::Cursor::new(&mut bytes),
        image::ImageFormat::Png,
    )?;
    Ok(bytes)
}

/// Calls `to_string` on an `image::ImageError`, that is, its `Display`.
/// Nothing is claimed of the text.
#[verifier::external_body]
pub(crate) fn image_error_text(error: &image::ImageError) -> (text: String) {
    error.to_string()
}

/// Calls `base64::Engine::encode` on `base64::engine::general_purpose::STANDARD`.
///
/// Claimed: the text is a function of the bytes alone, named
/// [`base64_standard`], and has the length that the crate's `encoded_len`
/// computes with padding. The crate panics where that length overflows, so
/// such buffers are left out.
#[verifier::external_body]
pub(crate) fn base64_text(bytes: &Vec<u8>) -> (text: String)
    requires
        fits_transport(bytes@.len() as int),
    ensures
        text@ == base64_standard(bytes@),
        text@.len() == base64_len(bytes@.len() as int),
{
    base64::Engine::encode(&base64::engine::general_purpose::STANDARD, bytes)
}

} // verus!
