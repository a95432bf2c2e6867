//! Laws of the normaliser and of the encoder's admission checks, proved over
//! their specifications.

use vstd::prelude::*;
use crate::encode::{rejection, EncodeError, EncoderConfig};
use crate::normalize::{normalized_pixels, CanonicalPixelBuffer};
use crate::pixel::{finished, high_byte, premultiplied, scaled_channel, Rgba8};
use crate::source::DecodedImage;

verus! {

/// Scaling a channel by full alpha gives the channel back.
pub proof fn lemma_scaled_by_opaque(channel: u8)
    ensures
        scaled_channel(channel, 255) == channel,
{
}

/// Scaling a channel by zero alpha gives zero.
pub proof fn lemma_scaled_by_transparent(channel: u8)
    ensures
        scaled_channel(channel, 0) == 0,
{
}

/// Premultiplying a fully opaque pixel leaves it unchanged, so doing it again
/// changes nothing either.
pub proof fn lemma_premultiply_opaque(p: Rgba8)
    requires
        p.a == 255,
    ensures
        premultiplied(p) == p,
        premultiplied(premultiplied(p)) == premultiplied(p),
{
    lemma_scaled_by_opaque(p.r);
    lemma_scaled_by_opaque(p.g);
    lemma_scaled_by_opaque(p.b);
}

/// Premultiplying a fully transparent pixel zeroes its colour channels,
/// whatever they held, and keeps alpha at zero.
pub proof fn lemma_premultiply_transparent(p: Rgba8)
    requires
        p.a == 0,
    ensures
        premultiplied(p) == (Rgba8 { r: 0, g: 0, b: 0, a: 0 }),
{
    lemma_scaled_by_transparent(p.r);
    lemma_scaled_by_transparent(p.g);
    lemma_scaled_by_transparent(p.b);
}

/// Premultiplication never changes alpha and never raises a colour channel
/// above its old value or above alpha.
pub proof fn lemma_premultiply_bounds(p: Rgba8)
    ensures
        premultiplied(p).a == p.a,
        premultiplied(p).r <= p.r && premultiplied(p).r <= p.a,
        premultiplied(p).g <= p.g && premultiplied(p).g <= p.a,
        premultiplied(p).b <= p.b && premultiplied(p).b <= p.a,
{
    lemma_scaled_channel_bounds(p.r, p.a);
    lemma_scaled_channel_bounds(p.g, p.a);
    lemma_scaled_channel_bounds(p.b, p.a);
}

/// A scaled channel is at most the channel and at most the alpha.
pub proof fn lemma_scaled_channel_bounds(channel: u8, alpha: u8)
    ensures
        scaled_channel(channel, alpha) <= channel,
        scaled_channel(channel, alpha) <= alpha,
{
    let c = channel as int;
    let a = alpha as int;
    assert(0 <= c * a <= 255 * c && c * a <= 255 * a) by (nonlinear_arith)
        requires
            0 <= c <= 255,
            0 <= a <= 255,
    ;
}

/// The 8-bit value derived from a 16-bit sample is the sample shifted right by
/// eight bits: truncation, never rounding.
pub proof fn lemma_high_byte_is_shift(v: u16)
    ensures
        high_byte(v) == v >> 8,
        high_byte(v) as int == v as int / 256,
        256 * (high_byte(v) as int) <= (v as int) < 256 * (high_byte(v) as int) + 256,
{
    assert(v >> 8 == v / 256) by (bit_vector);
}

/// The normalised image has exactly `width * height` pixels, with or without
/// premultiplication, and each is the finished form of its source pixel.
pub proof fn lemma_normalized_length(image: DecodedImage, premultiply: bool)
    ensures
        normalized_pixels(image, premultiply).len() == image.width * image.height,
        forall|i: int|
            0 <= i < image.width * image.height ==> #[trigger] normalized_pixels(
                image,
                premultiply,
            )[i] == finished(image.samples.canonical_pixel(i), premultiply),
{
    assert(image.width * image.height >= 0) by (nonlinear_arith)
        requires
            image.width >= 0,
            image.height >= 0,
    ;
}

/// Premultiplication leaves every alpha of the normalised image as it was.
pub proof fn lemma_normalized_alpha(image: DecodedImage, i: int)
    requires
        0 <= i < image.width * image.height,
    ensures
        normalized_pixels(image, true)[i].a == normalized_pixels(image, false)[i].a,
{
}

/// A buffer without pixels never reaches the codec: whatever the parameters,
/// a zero width, a zero height or an empty pixel buffer is rejected, and with
/// parameters in order a zero dimension is reported as an empty image.
pub proof fn lemma_empty_buffer_rejected(buffer: CanonicalPixelBuffer, config: EncoderConfig)
    requires
        buffer.width == 0 || buffer.height == 0 || buffer.pixels@.len() == 0,
    ensures
        rejection(buffer, config) is Some,
        config.fault() is None && (buffer.width == 0 || buffer.height == 0) ==> rejection(
            buffer,
            config,
        ) == Some(EncodeError::EmptyImage),
{
    if buffer.width != 0 && buffer.height != 0 {
        assert(buffer.width * buffer.height >= 1) by (nonlinear_arith)
            requires
                buffer.width >= 1,
                buffer.height >= 1,
        ;
    }
}

} // verus!
