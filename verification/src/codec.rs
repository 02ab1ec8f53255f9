//! Decoding, encoding and overlaying of images, done by the `image` crate.

use crate::params::OutputImageType;
use crate::raster::{Raster, RasterView};
use vstd::prelude::*;

verus! {

/// The error type of the `image` crate.
#[verifier::external_type_specification]
#[verifier::external_body]
pub struct ExImageError(image::ImageError);

/// The RGB image that the `image` crate reads out of `bytes` taken as a file
/// of the given format, or nothing where it reports an error.
pub uninterp spec fn decoded_image(format: OutputImageType, bytes: Seq<u8>) -> Option<RasterView>;

/// The file of the given format that the `image` crate writes for an RGB
/// image, or nothing where it reports an error.
pub uninterp spec fn encoded_image(format: OutputImageType, image: RasterView) -> Option<Seq<u8>>;

/// Calls `image::load_from_memory_with_format` and then
/// `DynamicImage::into_rgb8` on what it gives.
///
/// Trusted: the outcome depends on the format and the bytes alone, so it has
/// a name, [`decoded_image`]; and a decoded image holds three samples for
/// every pixel.
#[verifier::external_body]
pub(crate) fn decode(format: OutputImageType, bytes: &[u8]) -> (res: Result<
    Raster,
    image::ImageError,
>)
    ensures
        res is Ok <==> decoded_image(format, bytes@) is Some,
        res matches Ok(r) ==> r@.wf() && decoded_image(format, bytes@) == Some(r@),
{
    let kind = match format {
        OutputImageType::Png => image::ImageFormat::Png,
        OutputImageType::Gif => image::ImageFormat::Gif,
        OutputImageType::Jpeg => image::ImageFormat::Jpeg,
        OutputImageType::Webp => image::ImageFormat::WebP,
    };
    let image = image::load_from_memory_with_format(bytes, kind)?.into_rgb8();
    Ok(Raster { width: image.width(), height: image.height(), pixels: image.into_raw() })
}

/// Calls `image::write_buffer_with_format` on a writer in memory, with the
/// colour type `Rgb8`.
///
/// Trusted: the outcome depends on the format and the image alone, so it has
/// a name, [`encoded_image`]. An image whose buffer does not hold three
/// samples for every pixel is left out: the crate panics on it.
#[verifier::external_body]
pub(crate) fn encode(format: OutputImageType, image: &Raster) -> (res: Result<
    Vec<u8>,
    image::ImageError,
>)
    requires
        image@.wf(),
    ensures
        res is Ok <==> encoded_image(format, image@) is Some,
        res matches Ok(bytes) ==> encoded_image(format, image@) == Some(bytes@),
{
    let kind = match format {
        OutputImageType::Png => image::ImageFormat::Png,
        OutputImageType::Gif => image::ImageFormat::Gif,
        OutputImageType::Jpeg => image::ImageFormat::Jpeg,
        OutputImageType::Webp => image::ImageFormat::WebP,
    };
    let mut out = std::io::Cursor::new(Vec::new());
    let (width, height) = (image.width, image.height);
    let colour = image::ExtendedColorType::Rgb8;
    image::write_buffer_with_format(&mut out, &image.pixels, width, height, colour, kind)?;
    Ok(out.into_inner())
}

/// Calls `image::imageops::overlay` with `top` laid on `bottom`, its left
/// edge on the left edge of `bottom` and its first row on row `y`.
///
/// Trusted: `bottom` keeps its size; each of its pixels that `top` covers
/// takes the samples of the pixel of `top` above it, and every other pixel
/// stays as it was. Images whose buffers do not hold three samples for every
/// pixel are left out.
#[verifier::external_body]
pub(crate) fn overlay(bottom: &mut Raster, top: &Raster, y: u32)
    requires
        old(bottom)@.wf(),
        top@.wf(),
    ensures
        final(bottom)@.wf(),
        final(bottom)@.width == old(bottom)@.width,
        final(bottom)@.height == old(bottom)@.height,
        forall|x: int, row: int, c: int|
            old(bottom)@.holds(x, row, c) ==> #[trigger] final(bottom)@.sample(x, row, c) == (if x
                < top@.width && y <= row < y + top@.height {
                top@.sample(x, row - y, c)
            } else {
                old(bottom)@.sample(x, row, c)
            }),
{
    let samples = std::mem::take(&mut bottom.pixels);
    let mut canvas = image::RgbImage::from_raw(bottom.width, bottom.height, samples).unwrap();
    let page: image::ImageBuffer<image::Rgb<u8>, &[u8]> =
        image::ImageBuffer::from_raw(top.width, top.height, top.pixels.as_slice()).unwrap();
    image::imageops::overlay(&mut canvas, &page, 0, i64::from(y));
    bottom.pixels = canvas.into_raw();
}

/// The message of an error of the `image` crate: what the error displays
/// as.
pub(crate) fn image_error_text(error: &image::ImageError) -> (text: String)
    ensures
        vstd::string::to_string_from_display_ensures::<image::ImageError>(error, text),
{
    error.to_string()
}

} // verus!
