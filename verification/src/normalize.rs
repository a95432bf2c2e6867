//! The pixel normaliser: any decoded source image to the canonical buffer.

use vstd::prelude::*;
use crate::pixel::{finished, premultiplied, premultiply_pixel, Rgba8};
use crate::source::DecodedImage;

verus! {

/// The canonical image: row-major RGBA pixels, eight bits per channel, with
/// explicit dimensions.
#[derive(Clone, Debug)]
pub struct CanonicalPixelBuffer {
    pub width: usize,
    pub height: usize,
    pub pixels: Vec<Rgba8>,
}

impl CanonicalPixelBuffer {
    /// The buffer holds exactly `width * height` pixels.
    pub open spec fn wf(&self) -> bool {
        self.pixels@.len() == self.width * self.height
    }

    /// Scales the colour channels of every pixel by that pixel's alpha, in
    /// place. Dimensions and alpha stay as they are.
    pub fn premultiply(&mut self)
        ensures
            final(self).width == old(self).width,
            final(self).height == old(self).height,
            final(self).pixels@.len() == old(self).pixels@.len(),
            forall|k: int|
                0 <= k < old(self).pixels@.len() ==> #[trigger] final(self).pixels@[k]
                    == premultiplied(old(self).pixels@[k]),
    {
        let count: usize = self.pixels.len();
        let mut i: usize = 0;
        while i < count
            invariant
                self.width == old(self).width,
                self.height == old(self).height,
                self.pixels@.len() == count,
                old(self).pixels@.len() == count,
                i <= count,
                forall|k: int|
                    0 <= k < i ==> #[trigger] self.pixels@[k] == premultiplied(
                        old(self).pixels@[k],
                    ),
                forall|k: int| i <= k < count ==> #[trigger] self.pixels@[k] == old(self).pixels@[k],
            decreases count - i,
        {
            let p: Rgba8 = self.pixels[i];
            self.pixels.set(i, premultiply_pixel(p));
            i += 1;
        }
    }
}

/// The canonical pixels of a source image, in source order: each pixel derived
/// by the rule of its encoding and then, when asked for, scaled by its alpha.
pub open spec fn normalized_pixels(image: DecodedImage, premultiply: bool) -> Seq<Rgba8> {
    Seq::new(
        image.pixel_count(),
        |i: int| finished(image.samples.canonical_pixel(i), premultiply),
    )
}

/// A buffer of `pixels * channels` samples divides back into `pixels`.
proof fn lemma_pixels_from_samples(pixels: nat, channels: nat, samples: nat)
    by (nonlinear_arith)
    requires
        samples == pixels * channels,
        channels >= 1,
    ensures
        samples / channels == pixels,
{
}

/// Every pixel below the count has all its samples inside the buffer.
proof fn lemma_pixel_in_bounds(i: nat, pixels: nat, channels: nat)
    by (nonlinear_arith)
    requires
        i < pixels,
    ensures
        (i + 1) * channels <= pixels * channels,
{
}

/// Converts a decoded image into the canonical buffer.
pub fn normalize(image: &DecodedImage, premultiply: bool) -> (out: CanonicalPixelBuffer)
    requires
        image.wf(),
    ensures
        out.width == image.width,
        out.height == image.height,
        out.pixels@ == normalized_pixels(*image, premultiply),
        out.wf(),
{
    proof {
        lemma_pixels_from_samples(
            image.pixel_count(),
            image.samples.channels(),
            image.samples.count(),
        );
    }
    let count: usize = image.samples.len() / image.samples.channel_count();
    let mut pixels: Vec<Rgba8> = Vec::with_capacity(count);
    let mut i: usize = 0;
    while i < count
        invariant
            image.wf(),
            count == image.pixel_count(),
            i <= count,
            pixels@.len() == i,
            forall|k: int|
                0 <= k < i ==> #[trigger] pixels@[k] == image.samples.canonical_pixel(k),
        decreases count - i,
    {
        proof {
            lemma_pixel_in_bounds(i as nat, image.pixel_count(), image.samples.channels());
        }
        pixels.push(image.samples.pixel(i));
        i += 1;
    }
    let mut out = CanonicalPixelBuffer { width: image.width, height: image.height, pixels };
    if premultiply {
        out.premultiply();
    }
    out
}

} // verus!
