//! From encoded source bytes to the canonical buffer.
//!
//! Two decoders stand behind `decode`. Bytes that declare a PNG image with a
//! colour palette go to the PNG reader of the `image` crate, which expands the
//! palette and applies no colour profile. All other bytes go to the
//! `load_image` crate, which reads PNG and JPEG and converts to sRGB. Of both
//! the library trusts that reading a part of a decoded image twice gives the
//! same part, and of `load_image` that it fails on bytes that open as neither
//! format. Everything they hand out is checked here before any pixel is read.

use vstd::prelude::*;
use load_image::ImageData;
use rgb::ComponentSlice;
use crate::normalize::{normalize, normalized_pixels, CanonicalPixelBuffer};
use crate::png::{indexed_png, is_indexed_png, palette_chunks_whole, palettes_whole};
use crate::source::{DecodeError, DecodedImage, Samples};

verus! {

/// `load_image::Image`, a decoded image as the decoder hands it out. Opaque
/// here: its parts are read through [`image_width`], [`image_height`],
/// [`samples_8bit`] and [`samples_16bit`].
#[verifier::external_type_specification]
#[verifier::external_body]
pub struct ExImage(load_image::Image);

/// `load_image::Error`, the decoder's reason for rejecting its input. Opaque
/// here: every value of it becomes [`DecodeError::Unreadable`].
#[verifier::external_type_specification]
#[verifier::external_body]
pub struct ExLoadError(load_image::Error);

/// The `width` field of a `load_image::Image`.
pub uninterp spec fn held_width(image: load_image::Image) -> usize;

/// The `height` field of a `load_image::Image`.
pub uninterp spec fn held_height(image: load_image::Image) -> usize;

/// The `bitmap` field of a `load_image::Image` as a flat sample buffer, where
/// its samples are 8 bits wide; `None` where they are 16 bits wide.
pub uninterp spec fn held_samples_8bit(image: load_image::Image) -> Option<Samples>;

/// The `bitmap` field of a `load_image::Image` as a flat sample buffer, where
/// its samples are 16 bits wide; `None` where they are 8 bits wide.
pub uninterp spec fn held_samples_16bit(image: load_image::Image) -> Option<Samples>;

/// The bytes open as the decoder expects of a format it reads: with the first
/// four bytes of the PNG signature, or with the byte 0xFF that opens a JPEG
/// file.
pub open spec fn has_known_signature(bytes: Seq<u8>) -> bool {
    ||| (bytes.len() >= 4 && bytes[0] == 0x89 && bytes[1] == 0x50 && bytes[2] == 0x4E && bytes[3]
        == 0x47)
    ||| (bytes.len() >= 1 && bytes[0] == 0xFF)
}

/// `load_image::load_data` decodes an image held in memory.
///
/// For a PNG image with a colour palette the decoder looks every pixel up in
/// the palette without a test of the index, and panics on an index that the
/// palette lacks; it takes the colour type from offset 25 of a stream that
/// begins with the PNG signature and is at least 33 bytes long. `requires`
/// leaves those streams out: they go to [`load_palette_png`]. The decoder's
/// other internal assertions, in its JPEG reader and its colour management,
/// are not known to be reachable and are not left out.
///
/// With PNG and JPEG as its formats, which is how the crate is built by
/// default, it hands bytes that open with `\x89PNG` to its PNG decoder and
/// bytes that open with 0xFF to its JPEG decoder, and fails on all other
/// bytes: that failure is what `ensures` claims. Of a result for bytes with
/// such an opening nothing is claimed, not even that equal bytes always give
/// equal pixels: the decoder's colour management works in floating point.
pub assume_specification[ load_image::load_data ](data: &[u8]) -> (r: Result<
    load_image::Image,
    load_image::Error,
>)
    requires
        !is_indexed_png(data@),
    ensures
        !has_known_signature(data@) ==> r is Err,
;

/// Reads the `width` field of `load_image::Image`: the result is that field.
#[verifier::external_body]
fn image_width(image: &load_image::Image) -> (width: usize)
    ensures
        width == held_width(*image),
{
    image.width
}

/// Reads the `height` field of `load_image::Image`: the result is that field.
#[verifier::external_body]
fn image_height(image: &load_image::Image) -> (height: usize)
    ensures
        height == held_height(*image),
{
    image.height
}

/// Copies the `bitmap` field of `load_image::Image`, where its samples are 8
/// bits wide, into a flat sample buffer of the same encoding, through
/// `rgb::ComponentSlice::as_slice`, which lays the components of each pixel
/// out in declaration order. The result is what the image holds: equal images
/// give equal buffers.
#[verifier::external_body]
fn samples_8bit(image: &load_image::Image) -> (samples: Option<Samples>)
    ensures
        samples == held_samples_8bit(*image),
{
    match &image.bitmap {
        ImageData::RGB8(v) => Some(Samples::Rgb8(v[..].as_slice().to_vec())),
        ImageData::RGBA8(v) => Some(Samples::Rgba8(v[..].as_slice().to_vec())),
        ImageData::GRAY8(v) => Some(Samples::Gray8(v[..].as_slice().to_vec())),
        ImageData::GRAYA8(v) => Some(Samples::GrayAlpha8(v[..].as_slice().to_vec())),
        ImageData::RGB16(_) | ImageData::RGBA16(_) | ImageData::GRAY16(_) | ImageData::GRAYA16(
            _,
        ) => None,
    }
}

/// Copies the `bitmap` field of `load_image::Image`, where its samples are 16
/// bits wide, into a flat sample buffer of the same encoding, as
/// [`samples_8bit`] does. The result is what the image holds: equal images
/// give equal buffers.
#[verifier::external_body]
fn samples_16bit(image: &load_image::Image) -> (samples: Option<Samples>)
    ensures
        samples == held_samples_16bit(*image),
{
    match &image.bitmap {
        ImageData::RGB16(v) => Some(Samples::Rgb16(v[..].as_slice().to_vec())),
        ImageData::RGBA16(v) => Some(Samples::Rgba16(v[..].as_slice().to_vec())),
        ImageData::GRAY16(v) => Some(Samples::Gray16(v[..].as_slice().to_vec())),
        ImageData::GRAYA16(v) => Some(Samples::GrayAlpha16(v[..].as_slice().to_vec())),
        ImageData::RGB8(_) | ImageData::RGBA8(_) | ImageData::GRAY8(_) | ImageData::GRAYA8(_) => None,
    }
}

/// `image::DynamicImage`, a decoded image as the `image` crate hands it out.
/// Opaque here: its parts are read through [`picture_width`],
/// [`picture_height`] and [`picture_samples`].
#[verifier::external_type_specification]
#[verifier::external_body]
pub struct ExPicture(image::DynamicImage);

/// `image::ImageError`, that crate's reason for rejecting its input. Opaque
/// here: every value of it becomes [`DecodeError::Unreadable`].
#[verifier::external_type_specification]
#[verifier::external_body]
pub struct ExPictureError(image::ImageError);

/// The width of an `image::DynamicImage`.
pub uninterp spec fn shown_width(picture: image::DynamicImage) -> usize;

/// The height of an `image::DynamicImage`.
pub uninterp spec fn shown_height(picture: image::DynamicImage) -> usize;

/// The pixels of an `image::DynamicImage` as a flat sample buffer, where they
/// are 8-bit RGB or 8-bit RGBA; `None` for every other kind of pixel.
pub uninterp spec fn shown_samples(picture: image::DynamicImage) -> Option<Samples>;

/// Calls `image::load_from_memory_with_format` with the PNG format, for
/// streams that declare a colour palette. That reader expands every index
/// through a table of 256 entries, black where the palette has none, and so
/// hands out 8-bit RGB, or 8-bit RGBA where the stream holds transparency; it
/// applies no colour profile.
///
/// It keeps the bytes of a palette chunk as they are and builds its table
/// three bytes at a time, and panics on a palette chunk whose length is not a
/// multiple of three. `requires` leaves out every stream in which a chunk
/// header that names a palette gives such a length. Nothing is claimed of the
/// result.
#[verifier::external_body]
fn load_palette_png(bytes: &[u8]) -> (r: Result<image::DynamicImage, image::ImageError>)
    requires
        is_indexed_png(bytes@),
        palettes_whole(bytes@),
{
    image::load_from_memory_with_format(bytes, image::ImageFormat::Png)
}

/// Calls `image::DynamicImage::width`: the result is that width.
#[verifier::external_body]
fn picture_width(picture: &image::DynamicImage) -> (width: usize)
    ensures
        width == shown_width(*picture),
{
    picture.width() as usize
}

/// Calls `image::DynamicImage::height`: the result is that height.
#[verifier::external_body]
fn picture_height(picture: &image::DynamicImage) -> (height: usize)
    ensures
        height == shown_height(*picture),
{
    picture.height() as usize
}

/// Copies the samples of an `image::DynamicImage` that holds 8-bit RGB or
/// 8-bit RGBA, through `image::ImageBuffer::as_raw`, which gives them row by
/// row, pixel by pixel, channel by channel. The result is what the picture
/// holds: equal pictures give equal buffers.
#[verifier::external_body]
fn picture_samples(picture: &image::DynamicImage) -> (samples: Option<Samples>)
    ensures
        samples == shown_samples(*picture),
{
    match picture {
        image::DynamicImage::ImageRgb8(p) => Some(Samples::Rgb8(p.as_raw().clone())),
        image::DynamicImage::ImageRgba8(p) => Some(Samples::Rgba8(p.as_raw().clone())),
        _ => None,
    }
}

/// The one of two sample buffers that stands for the image: the first where
/// there is one, else the second.
pub open spec fn chosen_samples(eight: Option<Samples>, sixteen: Option<Samples>) -> Option<
    Samples,
> {
    match eight {
        Some(samples) => Some(samples),
        None => sixteen,
    }
}

/// The sample buffer of a decoded image, whichever its sample width: the 8-bit
/// buffer where the image has one, else the 16-bit buffer, else none.
fn image_samples(eight: Option<Samples>, sixteen: Option<Samples>) -> (samples: Option<Samples>)
    ensures
        samples == chosen_samples(eight, sixteen),
{
    match eight {
        Some(samples) => Some(samples),
        None => sixteen,
    }
}

/// The parts of a decoded image that the library reads: its width, its height
/// and its sample buffer.
pub open spec fn parts_of(image: load_image::Image) -> (usize, usize, Option<Samples>) {
    (
        held_width(image),
        held_height(image),
        chosen_samples(held_samples_8bit(image), held_samples_16bit(image)),
    )
}

/// Reads width, height and sample buffer out of a decoded image.
pub fn image_parts(image: &load_image::Image) -> (parts: (usize, usize, Option<Samples>))
    ensures
        parts == parts_of(*image),
{
    let width: usize = image_width(image);
    let height: usize = image_height(image);
    let samples = image_samples(samples_8bit(image), samples_16bit(image));
    (width, height, samples)
}

/// The parts of a picture that the library reads: its width, its height and
/// its sample buffer.
pub open spec fn picture_parts_of(picture: image::DynamicImage) -> (usize, usize, Option<Samples>) {
    (shown_width(picture), shown_height(picture), shown_samples(picture))
}

/// Reads width, height and sample buffer out of a picture.
pub fn picture_parts(picture: &image::DynamicImage) -> (parts: (usize, usize, Option<Samples>))
    ensures
        parts == picture_parts_of(*picture),
{
    let width: usize = picture_width(picture);
    let height: usize = picture_height(picture);
    (width, height, picture_samples(picture))
}

/// What the parts of a decoded image make: [`DecodeError::Unreadable`] where
/// there is no sample buffer, [`DecodeError::Empty`] where a dimension is
/// zero, [`DecodeError::SampleCount`] where the buffer does not fit the
/// dimensions, and else the image itself.
pub open spec fn assembled(width: usize, height: usize, samples: Option<Samples>) -> Result<
    DecodedImage,
    DecodeError,
> {
    match samples {
        None => Err(DecodeError::Unreadable),
        Some(s) => if width == 0 || height == 0 {
            Err(DecodeError::Empty)
        } else if s.count() == width * height * s.channels() {
            Ok(DecodedImage { width, height, samples: s })
        } else {
            Err(DecodeError::SampleCount)
        },
    }
}

/// Checks the parts of a decoded image against each other and joins them.
pub fn assemble(width: usize, height: usize, samples: Option<Samples>) -> (r: Result<
    DecodedImage,
    DecodeError,
>)
    ensures
        r == assembled(width, height, samples),
        r matches Ok(image) ==> image.wf() && image.width >= 1 && image.height >= 1,
{
    match samples {
        None => Err(DecodeError::Unreadable),
        Some(s) => if width == 0 || height == 0 {
            Err(DecodeError::Empty)
        } else {
            DecodedImage::new(width, height, s)
        },
    }
}

/// What [`decode`] returns for the decoder's outcome, given as the parts of
/// the image or as the decoder's failure: the parts assembled, or
/// [`DecodeError::Unreadable`] for any failure.
pub open spec fn decoding<E>(outcome: Result<(usize, usize, Option<Samples>), E>) -> Result<
    DecodedImage,
    DecodeError,
> {
    match outcome {
        Ok(parts) => assembled(parts.0, parts.1, parts.2),
        Err(_) => Err(DecodeError::Unreadable),
    }
}

/// Turns the decoder's outcome into the library's result.
pub fn decoded_from<E>(outcome: Result<(usize, usize, Option<Samples>), E>) -> (r: Result<
    DecodedImage,
    DecodeError,
>)
    ensures
        r == decoding(outcome),
        r matches Ok(image) ==> image.wf() && image.width >= 1 && image.height >= 1,
{
    match outcome {
        Ok(parts) => assemble(parts.0, parts.1, parts.2),
        Err(_) => Err(DecodeError::Unreadable),
    }
}

/// The bytes declare a PNG with a colour palette but hold a palette chunk
/// that is not made of whole entries: the one fault that the library finds
/// itself, before any decoder sees the bytes.
pub open spec fn has_broken_palette(bytes: Seq<u8>) -> bool {
    is_indexed_png(bytes) && !palettes_whole(bytes)
}

/// Decodes source bytes into an image with at least one pixel, whose sample
/// buffer has been checked against its dimensions.
///
/// - Bytes that declare a PNG with a colour palette and hold a palette chunk
///   whose length is not a multiple of three give [`DecodeError::Palette`],
///   and no other bytes do.
/// - Other bytes that declare a PNG with a colour palette go to the PNG reader
///   of the `image` crate, which applies no colour profile.
/// - All other bytes go to `load_image`; those that open as neither a PNG nor
///   a JPEG file are unreadable.
///
/// Where a decoder is called, the result is what [`decoded_from`] makes of its
/// outcome.
pub fn decode(bytes: &[u8]) -> (r: Result<DecodedImage, DecodeError>)
    ensures
        has_broken_palette(bytes@) <==> r == Err::<DecodedImage, DecodeError>(
            DecodeError::Palette,
        ),
        !has_known_signature(bytes@) ==> r == Err::<DecodedImage, DecodeError>(
            DecodeError::Unreadable,
        ),
        is_indexed_png(bytes@) && palettes_whole(bytes@) ==> exists|
            outcome: Result<(usize, usize, Option<Samples>), image::ImageError>,
        | r == #[trigger] decoding(outcome),
        !is_indexed_png(bytes@) ==> exists|
            outcome: Result<(usize, usize, Option<Samples>), load_image::Error>,
        | r == #[trigger] decoding(outcome),
        r matches Ok(image) ==> image.wf() && image.width >= 1 && image.height >= 1,
{
    if indexed_png(bytes) {
        if !palette_chunks_whole(bytes) {
            return Err(DecodeError::Palette);
        }
        let outcome = match load_palette_png(bytes) {
            Ok(picture) => Ok(picture_parts(&picture)),
            Err(e) => Err(e),
        };
        let r = decoded_from(outcome);
        assert(r == decoding(outcome));
        r
    } else {
        let outcome = match load_image::load_data(bytes) {
            Ok(image) => Ok(image_parts(&image)),
            Err(e) => Err(e),
        };
        let r = decoded_from(outcome);
        assert(r == decoding(outcome));
        r
    }
}

/// The canonical buffer that [`load_rgba`] owes for a decoding outcome: the
/// normalised image, or the decoder's failure passed on.
pub open spec fn canonical_outcome(
    decoded: Result<DecodedImage, DecodeError>,
    premultiplied_alpha: bool,
    r: Result<CanonicalPixelBuffer, DecodeError>,
) -> bool {
    match decoded {
        Ok(image) => r matches Ok(buffer) && buffer.width == image.width && buffer.height
            == image.height && buffer.pixels@ == normalized_pixels(image, premultiplied_alpha),
        Err(e) => r == Err::<CanonicalPixelBuffer, DecodeError>(e),
    }
}

/// Normalises the outcome of decoding: a decoded image becomes its canonical
/// buffer, a failure stays the failure it was.
pub fn canonical_from(decoded: Result<DecodedImage, DecodeError>, premultiplied_alpha: bool) -> (r:
    Result<CanonicalPixelBuffer, DecodeError>)
    requires
        decoded matches Ok(image) ==> image.wf(),
    ensures
        canonical_outcome(decoded, premultiplied_alpha, r),
        r matches Ok(buffer) ==> buffer.wf(),
{
    match decoded {
        Ok(image) => Ok(normalize(&image, premultiplied_alpha)),
        Err(e) => Err(e),
    }
}

/// Decodes source bytes and normalises the image: all or nothing.
///
/// The errors are those of [`decode`], on the same bytes. Where a decoder is
/// called, the result is what [`canonical_from`] makes of what
/// [`decoded_from`] makes of its outcome.
pub fn load_rgba(bytes: &[u8], premultiplied_alpha: bool) -> (r: Result<
    CanonicalPixelBuffer,
    DecodeError,
>)
    ensures
        has_broken_palette(bytes@) <==> r == Err::<CanonicalPixelBuffer, DecodeError>(
            DecodeError::Palette,
        ),
        !has_known_signature(bytes@) ==> r == Err::<CanonicalPixelBuffer, DecodeError>(
            DecodeError::Unreadable,
        ),
        is_indexed_png(bytes@) && palettes_whole(bytes@) ==> exists|
            outcome: Result<(usize, usize, Option<Samples>), image::ImageError>,
        | canonical_outcome(#[trigger] decoding(outcome), premultiplied_alpha, r),
        !is_indexed_png(bytes@) ==> exists|
            outcome: Result<(usize, usize, Option<Samples>), load_image::Error>,
        | canonical_outcome(#[trigger] decoding(outcome), premultiplied_alpha, r),
        r matches Ok(buffer) ==> buffer.wf() && buffer.width >= 1 && buffer.height >= 1,
{
    canonical_from(decode(bytes), premultiplied_alpha)
}

} // verus!
