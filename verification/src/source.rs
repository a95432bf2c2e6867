//! Decoded source images: eight pixel encodings over flat sample buffers.

use vstd::prelude::*;
use crate::pixel::{high_byte, truncate_sample, Rgba8, OPAQUE};

verus! {

/// The flat sample buffer of a decoded image, tagged with its pixel encoding.
///
/// Samples run row by row, pixel by pixel, channel by channel: three per pixel
/// for RGB, four for RGBA, one for gray and two for gray with alpha.
#[derive(Clone, Debug)]
pub enum Samples {
    Rgb8(Vec<u8>),
    Rgba8(Vec<u8>),
    Rgb16(Vec<u16>),
    Rgba16(Vec<u16>),
    Gray8(Vec<u8>),
    Gray16(Vec<u16>),
    GrayAlpha8(Vec<u8>),
    GrayAlpha16(Vec<u16>),
}

/// A decoded image: dimensions in pixels and the samples of every pixel.
#[derive(Clone, Debug)]
pub struct DecodedImage {
    pub width: usize,
    pub height: usize,
    pub samples: Samples,
}

/// Where the samples of pixel `i` end, for each channel count in use.
proof fn lemma_pixel_end(i: nat, channels: nat, samples: nat)
    by (nonlinear_arith)
    requires
        (i + 1) * channels <= samples,
    ensures
        channels == 1 ==> i + 1 <= samples,
        channels == 2 ==> 2 * i + 2 <= samples,
        channels == 3 ==> 3 * i + 3 <= samples,
        channels == 4 ==> 4 * i + 4 <= samples,
{
}

impl Samples {
    /// Samples stored for each pixel.
    pub open spec fn channels(&self) -> nat {
        match self {
            Samples::Rgb8(_) => 3,
            Samples::Rgba8(_) => 4,
            Samples::Rgb16(_) => 3,
            Samples::Rgba16(_) => 4,
            Samples::Gray8(_) => 1,
            Samples::Gray16(_) => 1,
            Samples::GrayAlpha8(_) => 2,
            Samples::GrayAlpha16(_) => 2,
        }
    }

    /// Number of samples in the buffer.
    pub open spec fn count(&self) -> nat {
        match self {
            Samples::Rgb8(s) => s@.len(),
            Samples::Rgba8(s) => s@.len(),
            Samples::Rgb16(s) => s@.len(),
            Samples::Rgba16(s) => s@.len(),
            Samples::Gray8(s) => s@.len(),
            Samples::Gray16(s) => s@.len(),
            Samples::GrayAlpha8(s) => s@.len(),
            Samples::GrayAlpha16(s) => s@.len(),
        }
    }

    /// The canonical pixel derived from source pixel `i`, before any
    /// premultiplication: 8-bit samples are copied, 16-bit samples keep their
    /// high byte, gray is replicated into the three colour channels, and a
    /// missing alpha becomes fully opaque.
    pub open spec fn canonical_pixel(&self, i: int) -> Rgba8 {
        match self {
            Samples::Rgb8(s) => Rgba8 { r: s@[3 * i], g: s@[3 * i + 1], b: s@[3 * i + 2], a: OPAQUE },
            Samples::Rgba8(s) => Rgba8 {
                r: s@[4 * i],
                g: s@[4 * i + 1],
                b: s@[4 * i + 2],
                a: s@[4 * i + 3],
            },
            Samples::Rgb16(s) => Rgba8 {
                r: high_byte(s@[3 * i]),
                g: high_byte(s@[3 * i + 1]),
                b: high_byte(s@[3 * i + 2]),
                a: OPAQUE,
            },
            Samples::Rgba16(s) => Rgba8 {
                r: high_byte(s@[4 * i]),
                g: high_byte(s@[4 * i + 1]),
                b: high_byte(s@[4 * i + 2]),
                a: high_byte(s@[4 * i + 3]),
            },
            Samples::Gray8(s) => Rgba8 { r: s@[i], g: s@[i], b: s@[i], a: OPAQUE },
            Samples::Gray16(s) => Rgba8 {
                r: high_byte(s@[i]),
                g: high_byte(s@[i]),
                b: high_byte(s@[i]),
                a: OPAQUE,
            },
            Samples::GrayAlpha8(s) => Rgba8 {
                r: s@[2 * i],
                g: s@[2 * i],
                b: s@[2 * i],
                a: s@[2 * i + 1],
            },
            Samples::GrayAlpha16(s) => Rgba8 {
                r: high_byte(s@[2 * i]),
                g: high_byte(s@[2 * i]),
                b: high_byte(s@[2 * i]),
                a: high_byte(s@[2 * i + 1]),
            },
        }
    }

    /// Samples stored for each pixel.
    pub fn channel_count(&self) -> (c: usize)
        ensures
            c == self.channels(),
            1 <= c <= 4,
    {
        match self {
            Samples::Rgb8(_) => 3,
            Samples::Rgba8(_) => 4,
            Samples::Rgb16(_) => 3,
            Samples::Rgba16(_) => 4,
            Samples::Gray8(_) => 1,
            Samples::Gray16(_) => 1,
            Samples::GrayAlpha8(_) => 2,
            Samples::GrayAlpha16(_) => 2,
        }
    }

    /// Number of samples in the buffer.
    pub fn len(&self) -> (n: usize)
        ensures
            n == self.count(),
    {
        match self {
            Samples::Rgb8(s) => s.len(),
            Samples::Rgba8(s) => s.len(),
            Samples::Rgb16(s) => s.len(),
            Samples::Rgba16(s) => s.len(),
            Samples::Gray8(s) => s.len(),
            Samples::Gray16(s) => s.len(),
            Samples::GrayAlpha8(s) => s.len(),
            Samples::GrayAlpha16(s) => s.len(),
        }
    }

    /// Derives the canonical pixel of source pixel `i`.
    pub fn pixel(&self, i: usize) -> (p: Rgba8)
        requires
            (i + 1) * self.channels() <= self.count(),
        ensures
            p == self.canonical_pixel(i as int),
    {
        let total: usize = self.len();
        proof {
            lemma_pixel_end(i as nat, self.channels(), total as nat);
        }
        match self {
            Samples::Rgb8(s) => Rgba8 { r: s[3 * i], g: s[3 * i + 1], b: s[3 * i + 2], a: OPAQUE },
            Samples::Rgba8(s) => Rgba8 {
                r: s[4 * i],
                g: s[4 * i + 1],
                b: s[4 * i + 2],
                a: s[4 * i + 3],
            },
            Samples::Rgb16(s) => Rgba8 {
                r: truncate_sample(s[3 * i]),
                g: truncate_sample(s[3 * i + 1]),
                b: truncate_sample(s[3 * i + 2]),
                a: OPAQUE,
            },
            Samples::Rgba16(s) => Rgba8 {
                r: truncate_sample(s[4 * i]),
                g: truncate_sample(s[4 * i + 1]),
                b: truncate_sample(s[4 * i + 2]),
                a: truncate_sample(s[4 * i + 3]),
            },
            Samples::Gray8(s) => {
                let v: u8 = s[i];
                Rgba8 { r: v, g: v, b: v, a: OPAQUE }
            },
            Samples::Gray16(s) => {
                let v: u8 = truncate_sample(s[i]);
                Rgba8 { r: v, g: v, b: v, a: OPAQUE }
            },
            Samples::GrayAlpha8(s) => {
                let v: u8 = s[2 * i];
                Rgba8 { r: v, g: v, b: v, a: s[2 * i + 1] }
            },
            Samples::GrayAlpha16(s) => {
                let v: u8 = truncate_sample(s[2 * i]);
                Rgba8 { r: v, g: v, b: v, a: truncate_sample(s[2 * i + 1]) }
            },
        }
    }
}

/// Why source bytes gave no image.
#[derive(Clone, Copy, Debug, PartialEq, Eq, Structural)]
pub enum DecodeError {
    /// The bytes are not a readable image in any supported format.
    Unreadable,
    /// The bytes declare a PNG image with a colour palette and hold a palette
    /// chunk whose length is not a multiple of three.
    Palette,
    /// The image has no pixels: its width or its height is zero.
    Empty,
    /// The sample buffer does not hold `width * height` pixels.
    SampleCount,
}

impl DecodedImage {
    /// Number of pixels: width times height.
    pub open spec fn pixel_count(&self) -> nat {
        (self.width * self.height) as nat
    }

    /// The buffer holds exactly the samples of `width * height` pixels.
    pub open spec fn wf(&self) -> bool {
        self.samples.count() == self.pixel_count() * self.samples.channels()
    }

    /// Pairs a sample buffer with its dimensions, provided that the buffer
    /// holds exactly `width * height` pixels.
    pub fn new(width: usize, height: usize, samples: Samples) -> (r: Result<
        DecodedImage,
        DecodeError,
    >)
        ensures
            samples.count() == width * height * samples.channels() ==> r == Ok::<
                DecodedImage,
                DecodeError,
            >(DecodedImage { width, height, samples }),
            samples.count() != width * height * samples.channels() ==> r == Err::<
                DecodedImage,
                DecodeError,
            >(DecodeError::SampleCount),
            r matches Ok(image) ==> image.wf(),
    {
        let channels: usize = samples.channel_count();
        let total: usize = samples.len();
        let expected: Option<usize> = match width.checked_mul(height) {
            Some(pixels) => pixels.checked_mul(channels),
            None => None,
        };
        proof {
            lemma_product_overflow(width as nat, height as nat, channels as nat);
        }
        match expected {
            Some(n) => {
                if n == total {
                    Ok(DecodedImage { width, height, samples })
                } else {
                    Err(DecodeError::SampleCount)
                }
            },
            None => Err(DecodeError::SampleCount),
        }
    }

    /// Whether the buffer holds exactly the samples of `width * height` pixels.
    pub fn is_well_formed(&self) -> (b: bool)
        ensures
            b == self.wf(),
    {
        let channels: usize = self.samples.channel_count();
        let total: usize = self.samples.len();
        proof {
            lemma_product_overflow(self.width as nat, self.height as nat, channels as nat);
        }
        match self.width.checked_mul(self.height) {
            Some(pixels) => match pixels.checked_mul(channels) {
                Some(n) => n == total,
                None => false,
            },
            None => false,
        }
    }
}

/// With at least one channel, `width * height * channels` is no smaller than
/// `width * height`.
proof fn lemma_product_overflow(width: nat, height: nat, channels: nat)
    by (nonlinear_arith)
    requires
        channels >= 1,
    ensures
        width * height <= width * height * channels,
{
}

} // verus!
