//! The boundary to the external image codec: decoding arbitrary bytes into
//! an RGBA pixel buffer and encoding a luma plane as a PNG file.
//!
//! The two functions here wrap the `image` crate and are the only trusted
//! items of the library: their contracts name what the codec returns, and
//! everything downstream is verified against those names.

use vstd::prelude::*;

verus! {

/// What decoding a byte sequence yields: `None` when the bytes are not a
/// recognized, well-formed image file, otherwise the width, height and
/// RGBA pixel bytes of the decoded image.
pub uninterp spec fn decoded_rgba(bytes: Seq<u8>) -> Option<(u32, u32, Seq<u8>)>;

/// The PNG file bytes that encode a luma image of the given dimensions.
pub uninterp spec fn png_bytes(width: u32, height: u32, luma: Seq<u8>) -> Seq<u8>;

/// Relies on image::load_from_memory (format sniffing plus decode) and
/// image::DynamicImage::to_rgba8 (conversion to 8-bit RGBA): both compute
/// from the input bytes alone, so the outcome is `decoded_rgba` of the
/// bytes. An image::RgbaImage always holds exactly `width * height` pixels
/// of 4 bytes each, which `ImageBuffer::into_raw` hands out unchanged.
#[verifier::external_body]
pub(crate) fn decode_rgba(bytes: &[u8]) -> (r: Result<(u32, u32, Vec<u8>), String>)
    ensures
        match r {
            Ok(img) => decoded_rgba(bytes@) == Some((img.0, img.1, img.2@))
                && img.2@.len() == 4 * img.0 * img.1,
            Err(_) => decoded_rgba(bytes@) is None,
        },
{
    match image::load_from_memory(bytes) {
        Ok(img) => {
            let rgba = img.to_rgba8();
            Ok((rgba.width(), rgba.height(), rgba.into_raw()))
        }
        Err(e) => Err(format!("{}", e)),
    }
}

/// Relies on image::ImageBuffer::from_raw, which returns `Some` exactly
/// when the container holds enough pixel data (here the length matches),
/// and on image::ImageBuffer::write_to with image::ImageFormat::Png: PNG
/// encoding of fixed pixel data with fixed dimensions and fixed settings
/// is deterministic, so the bytes written are `png_bytes` of the
/// arguments. Encoding owes success whenever both dimensions are nonzero:
/// the PNG encoder's only format failures are a zero width, a zero height
/// or an unsupported pixel layout (8-bit luma is supported), and writing
/// into a `Vec` cannot fail.
#[verifier::external_body]
pub(crate) fn encode_luma_png(width: u32, height: u32, luma: Vec<u8>) -> (r: Result<
    Vec<u8>,
    String,
>)
    requires
        luma@.len() == width * height,
    ensures
        r matches Ok(out) ==> out@ == png_bytes(width, height, luma@),
        1 <= width && 1 <= height ==> r is Ok,
{
    let img: image::GrayImage = match image::ImageBuffer::from_raw(width, height, luma) {
        Some(img) => img,
        None => {
            return Err(String::from("luma buffer does not match the dimensions"));
        },
    };
    let mut out: Vec<u8> = Vec::new();
    match img.write_to(&mut std::io::Cursor::new(&mut out), image::ImageFormat::Png) {
        Ok(()) => Ok(out),
        Err(e) => Err(format!("{}", e)),
    }
}

} // verus!
