//! Full-resolution photos: the size asked of the camera, the warm-up
//! frames before the one kept, and the JPEG encoding of the kept frame.

use vstd::prelude::*;

use image::DynamicImage;

use crate::frame::OwnedFrame;
use crate::resolution::{listed_before, listed_before_exec};
use crate::text::{append_str, chars_of, string_from_chars};

verus! {

/// Frames let through before the one that becomes the photo, so that the
/// sensor's exposure settles.
pub const STILL_CAPTURE_WARMUP_FRAMES: u32 = 6;

/// JPEG quality of saved photos.
pub const PHOTO_JPEG_QUALITY: u8 = 92;

/// The largest of the sizes the camera offers for stills: largest area,
/// then widest, then tallest (`Iterator::max_by_key` on that key).
pub fn largest_still_size(sizes: &Vec<(u32, u32)>) -> (r: Option<(u32, u32)>)
    ensures
        sizes.len() == 0 <==> r is None,
        r matches Some(s) ==> sizes@.contains(s) && forall|i: int|
            0 <= i < sizes.len() ==> !listed_before(#[trigger] sizes@[i], s),
{
    if sizes.len() == 0 {
        return None;
    }
    let mut best = sizes[0];
    let mut i: usize = 1;
    while i < sizes.len()
        invariant
            1 <= i <= sizes.len(),
            sizes@.contains(best),
            forall|j: int| 0 <= j < i ==> !listed_before(#[trigger] sizes@[j], best),
        decreases sizes.len() - i,
    {
        if !listed_before_exec(best, sizes[i]) {
            let ghost old_best = best;
            best = sizes[i];
            assert(sizes@[i as int] == best);
            assert forall|j: int| 0 <= j < i + 1 implies !listed_before(#[trigger] sizes@[j], best) by {
                if j < i {
                    assert(!listed_before(sizes@[j], old_best));
                    assert(!listed_before(old_best, best));
                }
            }
        }
        i = i + 1;
    }
    Some(best)
}

/// Whether the frame with the given index (from zero) is a warm-up frame,
/// handed back to the camera, rather than the one kept.
pub fn is_warmup_frame(frame_index: u32) -> (r: bool)
    ensures
        r == (frame_index < STILL_CAPTURE_WARMUP_FRAMES),
{
    frame_index < STILL_CAPTURE_WARMUP_FRAMES
}

/// What the image crate makes of RGBA pixels of the given size encoded as
/// JPEG at the given quality: the file's bytes, or the text of its error.
pub uninterp spec fn jpeg_encoding(pixels: Seq<u8>, width: u32, height: u32, quality: u8) -> Result<Seq<u8>, Seq<char>>;

/// Encodes RGBA pixels as JPEG in memory: `image::RgbaImage::from_raw`, then
/// `DynamicImage::write_with_encoder` with a `JpegEncoder` of the given
/// quality. `from_raw` refuses the buffer (`None`) exactly when it holds
/// fewer than the `4 * width * height` bytes of the image, the product
/// computed with overflow checks; otherwise the result is the encoder's,
/// which depends on the pixels, the size and the quality alone, its error
/// given as its text.
#[verifier::external_body]
fn encode_rgba_jpeg(width: u32, height: u32, data: &Vec<u8>, quality: u8) -> (r: Option<Result<Vec<u8>, String>>)
    ensures
        r is None <==> 4 * width * height > data.len(),
        r matches Some(encoded) ==> match jpeg_encoding(data@, width, height, quality) {
            Ok(bytes) => encoded matches Ok(v) && v@ == bytes,
            Err(text) => encoded matches Err(e) && e@ == text,
        },
{
    let buffer = image::RgbaImage::from_raw(width, height, data.clone())?;
    let mut bytes: Vec<u8> = Vec::new();
    let encoder = image::codecs::jpeg::JpegEncoder::new_with_quality(&mut bytes, quality);
    match DynamicImage::ImageRgba8(buffer).write_with_encoder(encoder) {
        Ok(()) => Some(Ok(bytes)),
        Err(error) => Some(Err(error.to_string())),
    }
}

/// The photo made of an encoding: its bytes, or its error after
/// `Falha ao codificar a foto em JPEG: `.
pub open spec fn photo_from(encoding: Result<Seq<u8>, Seq<char>>) -> Result<Seq<u8>, Seq<char>> {
    match encoding {
        Ok(bytes) => Ok(bytes),
        Err(text) => Err("Falha ao codificar a foto em JPEG: "@ + text),
    }
}

/// The photo made of an encoding (see `photo_from`).
pub fn photo_from_encoding(encoding: Result<Vec<u8>, String>) -> (r: Result<Vec<u8>, String>)
    ensures
        match photo_from(match encoding { Ok(v) => Ok(v@), Err(e) => Err(e@) }) {
            Ok(bytes) => r matches Ok(v) && v@ == bytes,
            Err(text) => r matches Err(e) && e@ == text,
        },
{
    match encoding {
        Ok(bytes) => Ok(bytes),
        Err(detail) => {
            let mut text = chars_of("Falha ao codificar a foto em JPEG: ");
            append_str(&mut text, detail.as_str());
            Err(string_from_chars(&text))
        },
    }
}

/// Why a frame cannot become a photo, if it cannot: it is empty, or its
/// bytes do not cover its size (as `u32`, the size the encoder takes).
pub open spec fn photo_frame_error(width: usize, height: usize, data_len: nat) -> Option<Seq<char>> {
    if width == 0 || height == 0 || data_len == 0 {
        Some("Ainda nao ha frame valido para salvar como foto."@)
    } else if 4 * (width as u32) * (height as u32) > data_len {
        Some("Falha ao montar a imagem RGBA da foto."@)
    } else {
        None
    }
}

/// Encodes a frame as the JPEG file of a photo, at `PHOTO_JPEG_QUALITY`.
/// Empty frames and frames whose bytes do not cover their size are refused
/// with the message that `photo_frame_error` gives; otherwise the photo is
/// the JPEG encoding of the frame's bytes at its size (as `u32`), an
/// encoder error coming back after `Falha ao codificar a foto em JPEG: `.
pub fn encode_photo_jpeg(frame: &OwnedFrame) -> (r: Result<Vec<u8>, String>)
    ensures
        match photo_frame_error(frame.width, frame.height, frame.data.len() as nat) {
            Some(message) => r matches Err(e) && e@ == message,
            None => match photo_from(
                jpeg_encoding(frame.data@, frame.width as u32, frame.height as u32, PHOTO_JPEG_QUALITY),
            ) {
                Ok(bytes) => r matches Ok(v) && v@ == bytes,
                Err(text) => r matches Err(e) && e@ == text,
            },
        },
{
    if frame.width == 0 || frame.height == 0 || frame.data.len() == 0 {
        return Err(String::from_str("Ainda nao ha frame valido para salvar como foto."));
    }
    let width = frame.width as u32;
    let height = frame.height as u32;
    match encode_rgba_jpeg(width, height, &frame.data, PHOTO_JPEG_QUALITY) {
        Some(encoded) => photo_from_encoding(encoded),
        None => Err(String::from_str("Falha ao montar a imagem RGBA da foto.")),
    }
}

} // verus!
