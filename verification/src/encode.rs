//! The encoder configurator: parameters in, one call of the AVIF codec, the
//! compressed image or a typed failure out.
//!
//! The two quality targets are fractional numbers, which this library does not
//! handle. The caller sets them on the `ravif::Encoder` that it passes in; the
//! library adds speed, alpha policy and thread hint and leaves the rest of the
//! encoder as it came.

use vstd::prelude::*;
use crate::laws::lemma_empty_buffer_rejected;
use crate::normalize::CanonicalPixelBuffer;
use crate::pixel::Rgba8;

verus! {

/// Slowest encoder speed the codec takes.
pub const SPEED_MIN: u8 = 1;

/// Fastest encoder speed the codec takes.
pub const SPEED_MAX: u8 = 10;

/// How the codec treats colour under transparent pixels. Alpha is always
/// stored unassociated: there is no third mode.
#[derive(Clone, Copy, Debug, PartialEq, Eq, Structural)]
pub enum AlphaMode {
    /// Colour under fully transparent pixels is kept as it is.
    UnassociatedDirty,
    /// Colour under fully transparent pixels may be replaced to compress
    /// better.
    UnassociatedClean,
}

/// The parameters of one encode call, but for the two quality targets, which
/// the encoder that comes with them carries.
#[derive(Clone, Copy, Debug, PartialEq, Eq, Structural)]
pub struct EncoderConfig {
    /// Effort of the encoder, from 1 (slowest) to 10 (fastest).
    pub speed: u8,
    /// Whether colour under fully transparent pixels is meaningful.
    pub dirty_alpha: bool,
    /// Worker threads to use; 0 leaves the choice to the codec.
    pub threads: u32,
}

/// What the codec is configured with for one call.
#[derive(Clone, Copy, Debug, PartialEq, Eq, Structural)]
pub struct EncoderSettings {
    pub speed: u8,
    pub alpha_mode: AlphaMode,
    pub threads: Option<usize>,
}

/// The compressed image and the sizes of its two planes.
#[derive(Clone, Debug)]
pub struct EncodedImage {
    /// The AVIF file.
    pub avif_file: Vec<u8>,
    /// Bytes of compressed colour data, for information.
    pub color_byte_size: usize,
    /// Bytes of compressed alpha data, for information.
    pub alpha_byte_size: usize,
}

/// Why a canonical buffer was not encoded.
#[derive(Clone, Copy, Debug, PartialEq, Eq, Structural)]
pub enum EncodeError {
    /// The speed is not from 1 to 10.
    Speed,
    /// The image has no pixels: its width or its height is zero.
    EmptyImage,
    /// The width or the height does not fit in 32 bits.
    TooLarge,
    /// The buffer does not hold `width * height` pixels.
    PixelCount,
    /// The codec reported a failure.
    Codec,
}

/// The alpha policy that `dirty_alpha` selects.
pub open spec fn alpha_mode_for(dirty_alpha: bool) -> AlphaMode {
    if dirty_alpha {
        AlphaMode::UnassociatedDirty
    } else {
        AlphaMode::UnassociatedClean
    }
}

/// The thread hint that `threads` stands for: none for 0, else the count.
pub open spec fn thread_hint(threads: u32) -> Option<usize> {
    if threads == 0 {
        None
    } else {
        Some(threads as usize)
    }
}

impl EncoderSettings {
    /// The codec accepts these settings: speed from 1 to 10, and a thread
    /// hint, where there is one, above zero.
    pub open spec fn valid(&self) -> bool {
        &&& SPEED_MIN <= self.speed <= SPEED_MAX
        &&& (self.threads matches Some(n) ==> n > 0)
    }
}

impl EncoderConfig {
    /// The settings these parameters stand for: speed as given, the alpha
    /// policy by `dirty_alpha`, the thread hint by `threads`.
    pub open spec fn spec_settings(&self) -> EncoderSettings {
        EncoderSettings {
            speed: self.speed,
            alpha_mode: alpha_mode_for(self.dirty_alpha),
            threads: thread_hint(self.threads),
        }
    }

    /// The fault of these parameters, if they have one: a speed that the
    /// codec does not take.
    pub open spec fn fault(&self) -> Option<EncodeError> {
        if SPEED_MIN <= self.speed <= SPEED_MAX {
            None
        } else {
            Some(EncodeError::Speed)
        }
    }

    /// Turns the parameters into codec settings.
    pub fn settings(&self) -> (s: EncoderSettings)
        ensures
            s == self.spec_settings(),
            s.valid() <==> self.fault() is None,
    {
        EncoderSettings {
            speed: self.speed,
            alpha_mode: if self.dirty_alpha {
                AlphaMode::UnassociatedDirty
            } else {
                AlphaMode::UnassociatedClean
            },
            threads: if self.threads == 0 {
                None
            } else {
                Some(self.threads as usize)
            },
        }
    }

    /// Checks the parameters once, before any encoding.
    pub fn validate(&self) -> (r: Result<EncoderSettings, EncodeError>)
        ensures
            match self.fault() {
                Some(e) => r == Err::<EncoderSettings, EncodeError>(e),
                None => r == Ok::<EncoderSettings, EncodeError>(self.spec_settings()),
            },
            r matches Ok(s) ==> s.valid(),
    {
        if self.speed < SPEED_MIN || self.speed > SPEED_MAX {
            Err(EncodeError::Speed)
        } else {
            Ok(self.settings())
        }
    }
}

impl CanonicalPixelBuffer {
    /// The first reason for which the codec cannot be handed this buffer:
    /// no pixels, a dimension beyond 32 bits, or a pixel count that is not
    /// `width * height`.
    pub open spec fn fault(&self) -> Option<EncodeError> {
        if self.width == 0 || self.height == 0 {
            Some(EncodeError::EmptyImage)
        } else if self.width > u32::MAX || self.height > u32::MAX {
            Some(EncodeError::TooLarge)
        } else if !self.wf() {
            Some(EncodeError::PixelCount)
        } else {
            None
        }
    }

    /// Checks that the codec can be handed this buffer.
    pub fn check(&self) -> (r: Result<(), EncodeError>)
        ensures
            match self.fault() {
                Some(e) => r == Err::<(), EncodeError>(e),
                None => r == Ok::<(), EncodeError>(()),
            },
    {
        if self.width == 0 || self.height == 0 {
            Err(EncodeError::EmptyImage)
        } else if self.width > 0xFFFF_FFFF || self.height > 0xFFFF_FFFF {
            Err(EncodeError::TooLarge)
        } else {
            let total: usize = self.pixels.len();
            match self.width.checked_mul(self.height) {
                Some(n) => if n == total {
                    Ok(())
                } else {
                    Err(EncodeError::PixelCount)
                },
                None => Err(EncodeError::PixelCount),
            }
        }
    }
}

/// `ravif::Error`, the codec's reason for a failure. Opaque here: every value
/// of it becomes [`EncodeError::Codec`].
#[verifier::external_type_specification]
#[verifier::external_body]
pub struct ExCodecError(ravif::Error);

/// `ravif::Encoder`, the codec's configuration. Opaque here: it comes from the
/// caller, is completed by [`configure`] and used by [`codec_encode`].
#[verifier::external_type_specification]
#[verifier::external_body]
pub struct ExEncoder(ravif::Encoder);

/// The `speed` field of a `ravif::Encoder`.
pub uninterp spec fn encoder_speed(encoder: ravif::Encoder) -> u8;

/// The `alpha_color_mode` field of a `ravif::Encoder`, where it is one of the
/// two unassociated modes; `None` where it is the premultiplied mode.
pub uninterp spec fn encoder_alpha_mode(encoder: ravif::Encoder) -> Option<AlphaMode>;

/// The `threads` field of a `ravif::Encoder`.
pub uninterp spec fn encoder_threads(encoder: ravif::Encoder) -> Option<usize>;

/// The `quantizer` field of a `ravif::Encoder`: what its colour quality was
/// turned into when it was set.
pub uninterp spec fn encoder_quantizer(encoder: ravif::Encoder) -> u8;

/// The `alpha_quantizer` field of a `ravif::Encoder`: what its alpha quality
/// was turned into when it was set.
pub uninterp spec fn encoder_alpha_quantizer(encoder: ravif::Encoder) -> u8;

/// `ravif::Encoder::with_speed` sets the encoder's `speed` field and leaves the
/// other fields as they are. It panics on a speed outside 1 to 10, which
/// `requires` leaves out.
pub assume_specification[ ravif::Encoder::with_speed ](encoder: ravif::Encoder, speed: u8) -> (r:
    ravif::Encoder)
    requires
        SPEED_MIN <= speed <= SPEED_MAX,
    ensures
        encoder_speed(r) == speed,
        encoder_alpha_mode(r) == encoder_alpha_mode(encoder),
        encoder_threads(r) == encoder_threads(encoder),
        encoder_quantizer(r) == encoder_quantizer(encoder),
        encoder_alpha_quantizer(r) == encoder_alpha_quantizer(encoder),
;

/// `ravif::Encoder::with_num_threads` sets the encoder's `threads` field, `None`
/// standing for the codec's own choice, and leaves the other fields as they
/// are. It panics on a count of zero, which `requires` leaves out.
pub assume_specification[ ravif::Encoder::with_num_threads ](
    encoder: ravif::Encoder,
    num_threads: Option<usize>,
) -> (r: ravif::Encoder)
    requires
        num_threads matches Some(n) ==> n > 0,
    ensures
        encoder_threads(r) == num_threads,
        encoder_speed(r) == encoder_speed(encoder),
        encoder_alpha_mode(r) == encoder_alpha_mode(encoder),
        encoder_quantizer(r) == encoder_quantizer(encoder),
        encoder_alpha_quantizer(r) == encoder_alpha_quantizer(encoder),
;

/// Calls `ravif::Encoder::with_alpha_color_mode` with the codec's mode of the
/// same name. That method sets the encoder's alpha mode, and with it the mark
/// for premultiplied alpha, and leaves speed, threads and quantizers as they
/// are.
#[verifier::external_body]
fn with_alpha_mode(encoder: ravif::Encoder, mode: AlphaMode) -> (r: ravif::Encoder)
    ensures
        encoder_alpha_mode(r) == Some(mode),
        encoder_speed(r) == encoder_speed(encoder),
        encoder_threads(r) == encoder_threads(encoder),
        encoder_quantizer(r) == encoder_quantizer(encoder),
        encoder_alpha_quantizer(r) == encoder_alpha_quantizer(encoder),
{
    encoder.with_alpha_color_mode(
        match mode {
            AlphaMode::UnassociatedDirty => ravif::AlphaColorMode::UnassociatedDirty,
            AlphaMode::UnassociatedClean => ravif::AlphaColorMode::UnassociatedClean,
        },
    )
}

/// Completes an encoder with the given settings: speed, alpha mode and thread
/// hint become those of the settings, and the two quality targets that the
/// encoder came with stay as they are.
pub fn configure(base: ravif::Encoder, settings: &EncoderSettings) -> (encoder: ravif::Encoder)
    requires
        settings.valid(),
    ensures
        encoder_speed(encoder) == settings.speed,
        encoder_alpha_mode(encoder) == Some(settings.alpha_mode),
        encoder_threads(encoder) == settings.threads,
        encoder_quantizer(encoder) == encoder_quantizer(base),
        encoder_alpha_quantizer(encoder) == encoder_alpha_quantizer(base),
{
    with_alpha_mode(base.with_speed(settings.speed), settings.alpha_mode).with_num_threads(
        settings.threads,
    )
}

/// Calls `ravif::Encoder::encode_rgba` on the pixels, wrapped by
/// `imgref::Img::new` with the given dimensions. `Img::new` panics on a width
/// of zero or a dimension beyond 32 bits, and the codec's walk over the pixels
/// panics on a buffer shorter than `width * height`, which `requires` leaves
/// out. With a thread hint the codec starts a thread pool of that size and
/// panics where the machine cannot start it: that depends on the machine at
/// the time of the call, and no condition on the arguments leaves it out.
/// Nothing is claimed of the result: it varies with the number of threads
/// that the machine offers.
#[verifier::external_body]
fn codec_encode(encoder: &ravif::Encoder, pixels: &Vec<Rgba8>, width: usize, height: usize) -> (r:
    Result<EncodedImage, ravif::Error>)
    requires
        1 <= width <= u32::MAX,
        1 <= height <= u32::MAX,
        pixels@.len() == width * height,
{
    let buf: Vec<rgb::RGBA8> = pixels.iter().map(|p| rgb::RGBA8::new(p.r, p.g, p.b, p.a)).collect();
    let out = encoder.encode_rgba(ravif::Img::new(&buf[..], width, height))?;
    Ok(EncodedImage {
        avif_file: out.avif_file,
        color_byte_size: out.color_byte_size,
        alpha_byte_size: out.alpha_byte_size,
    })
}

/// The first reason for which nothing is handed to the codec: a fault of the
/// parameters, else a fault of the buffer.
pub open spec fn rejection(buffer: CanonicalPixelBuffer, config: EncoderConfig) -> Option<
    EncodeError,
> {
    match config.fault() {
        Some(e) => Some(e),
        None => buffer.fault(),
    }
}

/// What [`encode_image`] returns for the codec's answer: the image as the
/// codec gave it where its file holds at least one byte, and
/// [`EncodeError::Codec`] for a file without bytes and for any failure that the
/// codec reported.
pub open spec fn encode_outcome<E>(answer: Result<EncodedImage, E>) -> Result<
    EncodedImage,
    EncodeError,
> {
    match answer {
        Ok(image) => if image.avif_file@.len() > 0 {
            Ok(image)
        } else {
            Err(EncodeError::Codec)
        },
        Err(_) => Err(EncodeError::Codec),
    }
}

/// Turns the codec's answer into the library's result.
pub fn encoded_from<E>(answer: Result<EncodedImage, E>) -> (r: Result<EncodedImage, EncodeError>)
    ensures
        r == encode_outcome(answer),
        r matches Ok(image) ==> image.avif_file@.len() > 0,
{
    match answer {
        Ok(image) => if image.avif_file.len() > 0 {
            Ok(image)
        } else {
            Err(EncodeError::Codec)
        },
        Err(_) => Err(EncodeError::Codec),
    }
}

/// Encodes a canonical buffer as AVIF under the given parameters, with the
/// quality targets that `base` carries.
///
/// Nothing reaches the codec unless parameters and buffer are in order; then
/// the codec is called once, with exactly the settings that the parameters
/// stand for, and its answer is returned without a retry.
///
/// Not every failure comes back as an error. A positive `threads` is handed on
/// as it is, and the codec starts a thread pool of that size: where the
/// machine cannot start that many threads, the codec panics.
pub fn encode_image(
    buffer: &CanonicalPixelBuffer,
    base: ravif::Encoder,
    config: &EncoderConfig,
) -> (r: Result<EncodedImage, EncodeError>)
    ensures
        rejection(*buffer, *config) matches Some(e) ==> r == Err::<EncodedImage, EncodeError>(e),
        rejection(*buffer, *config) is None ==> (r is Ok || r == Err::<EncodedImage, EncodeError>(
            EncodeError::Codec,
        )),
        buffer.width == 0 || buffer.height == 0 || buffer.pixels@.len() == 0 ==> r is Err,
        r matches Ok(image) ==> image.avif_file@.len() > 0,
{
    proof {
        if buffer.width == 0 || buffer.height == 0 || buffer.pixels@.len() == 0 {
            lemma_empty_buffer_rejected(*buffer, *config);
        }
    }
    match config.validate() {
        Err(e) => Err(e),
        Ok(settings) => match buffer.check() {
            Err(e) => Err(e),
            Ok(_) => {
                let encoder = configure(base, &settings);
                encoded_from(codec_encode(&encoder, &buffer.pixels, buffer.width, buffer.height))
            },
        },
    }
}

} // verus!
