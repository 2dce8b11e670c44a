//! Decoding image files into RGBA pixel grids and encoding pixel grids as
//! PNG, through the `image` crate.  The decoded pixels and the encoded
//! bytes are functions of their inputs alone; the contracts name them so
//! that the pipeline around the codecs can be exact.

use vstd::prelude::*;

use crate::correlate::{correlate_chain, correlated};
use crate::image2d::{Image, ImageView};
use crate::matrix::CorrelationMatrix;

verus! {

/// The image that decoding a byte stream yields: `None` when the bytes are
/// not a decodable image, otherwise its dimensions and row-major RGBA
/// data.
pub uninterp spec fn decoded_rgba(bytes: Seq<u8>) -> Option<ImageView>;

/// The PNG encoding of an RGBA pixel grid.
pub uninterp spec fn png_encoding(width: int, height: int, data: Seq<u8>) -> Seq<u8>;

/// Why a codec call failed.
#[derive(Clone, Copy, Debug, PartialEq, Eq, Structural)]
pub enum CodecError {
    /// The input bytes are not a decodable image.
    Undecodable,
    /// The pixel grid could not be encoded.
    Unencodable,
}

/// Relies on image::load_from_memory and DynamicImage::into_rgba8: decodes
/// an encoded image (JPEG, PNG, ...) into its dimensions and row-major
/// 8-bit RGBA data, a function of the bytes alone; an image buffer always
/// holds exactly `width * height * 4` bytes.
#[verifier::external_body]
fn decode_rgba_parts(bytes: &Vec<u8>) -> (r: Option<(u32, u32, Vec<u8>)>)
    ensures
        match r {
            Some(parts) => {
                &&& decoded_rgba(bytes@) == Some(
                    ImageView {
                        width: parts.0 as int,
                        height: parts.1 as int,
                        data: parts.2@,
                    },
                )
                &&& parts.2@.len() == parts.0 * parts.1 * 4
            },
            None => decoded_rgba(bytes@) is None,
        },
{
    match image::load_from_memory(bytes) {
        Ok(decoded) => {
            let buf = decoded.into_rgba8();
            let (width, height) = buf.dimensions();
            Some((width, height, buf.into_raw()))
        },
        Err(_) => None,
    }
}

/// Relies on image::RgbaImage::from_raw and ImageBuffer::write_to with the
/// PNG format: encodes a row-major RGBA grid as PNG bytes, a function of
/// the grid alone.  With the buffer exactly `width * height * 4` bytes
/// long, `from_raw` always succeeds, and the PNG encoder fails exactly on
/// a zero width or height (its only checks besides the color layout, which
/// is always 8-bit RGBA here); writing to an in-memory buffer cannot fail.
#[verifier::external_body]
fn encode_png_raw(width: u32, height: u32, data: &Vec<u8>) -> (r: Option<Vec<u8>>)
    requires
        data@.len() == width * height * 4,
    ensures
        r is Some <==> (0 < width && 0 < height),
        match r {
            Some(v) => v@ == png_encoding(width as int, height as int, data@),
            None => true,
        },
{
    let buf = match image::RgbaImage::from_raw(width, height, data.clone()) {
        Some(b) => b,
        None => return None,
    };
    let mut out: Vec<u8> = Vec::new();
    let mut cursor = std::io::Cursor::new(&mut out);
    match buf.write_to(&mut cursor, image::ImageFormat::Png) {
        Ok(_) => Some(out),
        Err(_) => None,
    }
}

/// Decodes a byte stream into an RGBA image; fails exactly on byte streams
/// that are not decodable images.
pub fn decode_rgba(bytes: &Vec<u8>) -> (r: Result<Image, CodecError>)
    ensures
        match r {
            Ok(im) => {
                &&& decoded_rgba(bytes@) == Some(im@)
                &&& im@.wf()
            },
            Err(CodecError::Undecodable) => decoded_rgba(bytes@) is None,
            Err(CodecError::Unencodable) => false,
        },
{
    match decode_rgba_parts(bytes) {
        Some((width, height, data)) => {
            let im = Image::from_parts(width as usize, height as usize, data);
            Ok(im)
        },
        None => Err(CodecError::Undecodable),
    }
}

/// Encodes an image as PNG bytes; succeeds exactly on images with at least
/// one pixel (PNG has no zero-dimensioned images).
pub fn encode_png(img: &Image) -> (r: Result<Vec<u8>, CodecError>)
    requires
        img@.wf(),
    ensures
        r is Ok <==> (0 < img@.width && 0 < img@.height),
        match r {
            Ok(v) => v@ == png_encoding(img@.width, img@.height, img@.data),
            Err(e) => e == CodecError::Unencodable,
        },
{
    let width: usize = img.width();
    let height: usize = img.height();
    match encode_png_raw(width as u32, height as u32, img.pixel_data()) {
        Some(v) => Ok(v),
        None => Err(CodecError::Unencodable),
    }
}

/// The whole in-memory pipeline: decodes the input bytes, runs two
/// correlation passes (the first, say a blur, feeding the second, say an
/// edge detection), and encodes the result as PNG.  Succeeds exactly on
/// decodable inputs with at least one pixel (correlation keeps the
/// dimensions, and only a zero-dimensioned result cannot be encoded).
pub fn filter_image_bytes(
    bytes: &Vec<u8>,
    first: &CorrelationMatrix,
    second: &CorrelationMatrix,
) -> (r: Result<Vec<u8>, CodecError>)
    requires
        first@.wf(),
        second@.wf(),
    ensures
        ({
            let dec = decoded_rgba(bytes@);
            dec is Some && 0 < dec->Some_0.width && 0 < dec->Some_0.height ==> r is Ok
        }),
        match r {
            Ok(v) => {
                &&& decoded_rgba(bytes@) is Some
                &&& ({
                    let out = correlated(
                        correlated(decoded_rgba(bytes@)->Some_0, first@),
                        second@,
                    );
                    v@ == png_encoding(out.width, out.height, out.data)
                })
            },
            Err(CodecError::Undecodable) => decoded_rgba(bytes@) is None,
            Err(CodecError::Unencodable) => {
                &&& decoded_rgba(bytes@) is Some
                &&& (decoded_rgba(bytes@)->Some_0.width == 0 || decoded_rgba(
                    bytes@,
                )->Some_0.height == 0)
            },
        },
{
    let im = match decode_rgba(bytes) {
        Ok(im) => im,
        Err(_) => {
            return Err(CodecError::Undecodable);
        },
    };
    let out = correlate_chain(&im, first, second);
    encode_png(&out)
}

} // verus!
