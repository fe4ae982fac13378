//! PNG encode/decode, treated as an opaque collaborator: the codec calls go
//! through trusted wrappers around the `image` crate, and their results are
//! named by uninterpreted functions of the input bytes alone.

use vstd::prelude::*;

use image::ImageEncoder;

verus! {

/// Failure to encode an RGBA buffer as PNG.
#[derive(Clone, Copy, Debug, PartialEq, Eq)]
pub enum EncodeError {
    /// The buffer does not hold exactly `4 * w * h` bytes.
    SizeMismatch,
    /// The codec rejected the image.
    EncodeFailed,
}

/// Failure to decode an encoded image into RGBA pixels.
#[derive(Clone, Copy, Debug, PartialEq, Eq)]
pub enum DecodeError {
    /// The byte stream is not a decodable image.
    DecodeFailed,
}

/// The PNG stream outcome for an RGBA byte buffer of size `w * h`: the exact
/// encoded bytes, or `None` where the codec rejects the image (for example a
/// zero dimension). Encoding is a function of its arguments alone.
pub uninterp spec fn png_of(rgba: Seq<u8>, w: nat, h: nat) -> Option<Seq<u8>>;

/// The decode outcome for an encoded image byte stream, with the decoder's
/// allocation limits disabled: its pixel width and height and the RGBA
/// bytes, or `None` where the stream cannot be decoded. Decoding is a
/// function of the input bytes alone.
pub uninterp spec fn decoded_rgba(bytes: Seq<u8>) -> Option<(nat, nat, Seq<u8>)>;

/// The eight fixed bytes that open every PNG stream.
pub open spec fn png_signature() -> Seq<u8> {
    seq![137u8, 80u8, 78u8, 71u8, 13u8, 10u8, 26u8, 10u8]
}

/// Relies on `image::codecs::png::PngEncoder::write_image` for RGBA8 data:
/// the outcome is a function of the buffer and dimensions alone; every PNG
/// stream opens with the fixed eight-byte signature; and PNG is lossless for
/// RGBA8, so a limit-free decode of an encoded stream (which is what
/// [`decoded_rgba`] names) returns the same dimensions and bytes, at any
/// size.
#[verifier::external_body]
fn png_encode_rgba(rgba: &Vec<u8>, w: u32, h: u32) -> (r: Result<Vec<u8>, EncodeError>)
    requires
        rgba@.len() == 4 * w * h,
    ensures
        (r is Ok) == (png_of(rgba@, w as nat, h as nat) is Some),
        r matches Ok(b) ==> png_of(rgba@, w as nat, h as nat) == Some(b@),
        r matches Ok(b) ==> b@.len() >= 8 && b@.subrange(0, 8) == png_signature(),
        r matches Ok(b) ==> decoded_rgba(b@) == Some((w as nat, h as nat, rgba@)),
        r matches Err(e) ==> e == EncodeError::EncodeFailed,
{
    let mut data: Vec<u8> = Vec::new();
    let encoder = image::codecs::png::PngEncoder::new(&mut data);
    match encoder.write_image(rgba, w, h, image::ExtendedColorType::Rgba8) {
        Ok(()) => Ok(data),
        Err(_) => Err(EncodeError::EncodeFailed),
    }
}

/// Relies on `image::ImageReader` (format guessed from the bytes, the
/// decoder's default allocation limits disabled) and
/// `DynamicImage::to_rgba8`: the outcome is a function of the input bytes
/// alone, and the returned buffer holds at least `4 * w * h` bytes.
#[verifier::external_body]
fn image_decode_rgba(bytes: &Vec<u8>) -> (r: Result<(u32, u32, Vec<u8>), DecodeError>)
    ensures
        (r is Ok) == (decoded_rgba(bytes@) is Some),
        r matches Ok((w, h, p)) ==> decoded_rgba(bytes@) == Some((w as nat, h as nat, p@))
            && p@.len() >= 4 * w * h,
        r matches Err(e) ==> e == DecodeError::DecodeFailed,
{
    let mut reader = image::ImageReader::new(std::io::Cursor::new(bytes));
    reader = match reader.with_guessed_format() {
        Ok(r) => r,
        Err(_) => return Err(DecodeError::DecodeFailed),
    };
    reader.no_limits();
    match reader.decode() {
        Ok(img) => {
            let rgba = img.to_rgba8();
            let (w, h) = (rgba.width(), rgba.height());
            Ok((w, h, rgba.into_raw()))
        },
        Err(_) => Err(DecodeError::DecodeFailed),
    }
}

/// Encodes an RGBA byte buffer of size `w * h` as a PNG stream. A buffer
/// whose length is not exactly `4 * w * h` is rejected; otherwise the result
/// is exactly the codec's outcome for these bytes and dimensions.
pub fn encode_png(rgba: &Vec<u8>, w: u32, h: u32) -> (r: Result<Vec<u8>, EncodeError>)
    ensures
        rgba@.len() != 4 * w * h ==> r == Err::<Vec<u8>, EncodeError>(EncodeError::SizeMismatch),
        rgba@.len() == 4 * w * h ==> {
            &&& (r is Ok) == (png_of(rgba@, w as nat, h as nat) is Some)
            &&& (r is Err) ==> r == Err::<Vec<u8>, EncodeError>(EncodeError::EncodeFailed)
        },
        r matches Ok(b) ==> png_of(rgba@, w as nat, h as nat) == Some(b@) && b@.len() >= 8
            && b@.subrange(0, 8) == png_signature() && decoded_rgba(b@) == Some(
            (w as nat, h as nat, rgba@),
        ),
{
    proof {
        assert(4 * (w as int) * (h as int) <= 0x10_0000_0000_0000_0000) by (nonlinear_arith)
            requires
                w <= 0xFFFF_FFFF,
                h <= 0xFFFF_FFFF,
        ;
    }
    let need: u128 = 4 * (w as u128) * (h as u128);
    if (rgba.len() as u128) != need {
        return Err(EncodeError::SizeMismatch);
    }
    png_encode_rgba(rgba, w, h)
}

/// Decodes an encoded image byte stream into `(width, height, rgba bytes)`,
/// with the decoder's allocation limits disabled. The result is exactly the
/// codec's outcome for these bytes; undecodable streams are rejected.
pub fn decode_image(bytes: &Vec<u8>) -> (r: Result<(u32, u32, Vec<u8>), DecodeError>)
    ensures
        (r is Ok) == (decoded_rgba(bytes@) is Some),
        r matches Ok((w, h, p)) ==> decoded_rgba(bytes@) == Some((w as nat, h as nat, p@))
            && p@.len() >= 4 * w * h,
        r is Err ==> r == Err::<(u32, u32, Vec<u8>), DecodeError>(DecodeError::DecodeFailed),
{
    image_decode_rgba(bytes)
}

} // verus!
