use vstd::prelude::*;

verus! {

#[verifier::external_type_specification]
#[verifier::external_body]
pub struct ExImageError(image::ImageError);

/// The image a byte buffer encodes, converted to 8-bit RGB: width, height and
/// interleaved samples, or nothing where the bytes are not an image of a
/// supported encoding. The JPEG decoder is built for output that is the same
/// on every CPU.
pub uninterp spec fn rgb_decoding(bytes: Seq<u8>) -> Option<(u32, u32, Seq<u8>)>;

/// The interleaved RGB samples of an image resampled with the triangle filter.
pub uninterp spec fn triangle_resized(
    width: u32,
    height: u32,
    pixels: Seq<u8>,
    new_width: u32,
    new_height: u32,
) -> Seq<u8>;

/// Relies on `image::load_from_memory`, which guesses the encoding from the
/// bytes and decodes them, and on `DynamicImage::to_rgb8`, which converts into
/// a fresh RGB buffer of `3 * width * height` samples. Bytes that are no image
/// never decode; an image may still fail to, where the decoder cannot start
/// its worker threads.
#[verifier::external_body]
pub(crate) fn decode_rgb(bytes: &Vec<u8>) -> (r: Result<(u32, u32, Vec<u8>), image::ImageError>)
    ensures
        rgb_decoding(bytes@) is None ==> r is Err,
        r matches Ok(d) ==> {
            &&& rgb_decoding(bytes@) == Some((d.0, d.1, d.2@))
            &&& d.2@.len() == 3 * (d.0 as int) * (d.1 as int)
        },
{
    match image::load_from_memory(bytes) {
        Ok(img) => {
            let rgb = img.to_rgb8();
            Ok((rgb.width(), rgb.height(), rgb.into_raw()))
        },
        Err(e) => Err(e),
    }
}

/// Relies on `image::imageops::resize` with `FilterType::Triangle`, which
/// returns a buffer of exactly `new_width` by `new_height` pixels, and on
/// `ImageBuffer::from_raw`, which accepts a buffer of at least
/// `3 * width * height` samples.
#[verifier::external_body]
pub(crate) fn resize_triangle(width: u32, height: u32, pixels: Vec<u8>, new_width: u32, new_height: u32) -> (r: Option<Vec<u8>>)
    requires
        width >= 1,
        height >= 1,
        pixels@.len() == 3 * (width as int) * (height as int),
        3 * (new_width as int) * (new_height as int) <= usize::MAX,
    ensures
        r is Some,
        r is Some ==> r->Some_0@ == triangle_resized(width, height, pixels@, new_width, new_height),
        r is Some ==> r->Some_0@.len() == 3 * (new_width as int) * (new_height as int),
{
    match image::RgbImage::from_raw(width, height, pixels) {
        Some(img) => Some(
            image::imageops::resize(&img, new_width, new_height, image::imageops::FilterType::Triangle).into_raw(),
        ),
        None => None,
    }
}

} // verus!
