//! The canonical pixel and the channel arithmetic that produces it.

use vstd::prelude::*;

verus! {

/// One canonical pixel: red, green, blue and alpha, eight bits each.
#[derive(Clone, Copy, Debug, PartialEq, Eq, Structural)]
pub struct Rgba8 {
    pub r: u8,
    pub g: u8,
    pub b: u8,
    pub a: u8,
}

/// Alpha of a pixel whose source carried no alpha channel.
pub const OPAQUE: u8 = 255;

/// The most significant eight bits of a 16-bit sample: the sample divided by
/// 256, remainder discarded.
pub open spec fn high_byte(v: u16) -> u8 {
    (v / 256) as u8
}

/// A colour channel scaled by alpha: `channel * alpha / 255`, rounded down.
pub open spec fn scaled_channel(channel: u8, alpha: u8) -> u8 {
    ((channel as int * alpha as int) / 255) as u8
}

/// A pixel with its three colour channels scaled by its own alpha; alpha
/// itself is kept.
pub open spec fn premultiplied(p: Rgba8) -> Rgba8 {
    Rgba8 {
        r: scaled_channel(p.r, p.a),
        g: scaled_channel(p.g, p.a),
        b: scaled_channel(p.b, p.a),
        a: p.a,
    }
}

/// A pixel as it leaves the normaliser: scaled by alpha when premultiplication
/// was asked for, unchanged otherwise.
pub open spec fn finished(p: Rgba8, premultiply: bool) -> Rgba8 {
    if premultiply {
        premultiplied(p)
    } else {
        p
    }
}

/// Truncates a 16-bit sample to its high byte.
pub fn truncate_sample(v: u16) -> (out: u8)
    ensures
        out == high_byte(v),
        out == v >> 8,
{
    assert(v >> 8 == v / 256) by (bit_vector);
    (v >> 8) as u8
}

/// Scales one colour channel by alpha.
pub fn scale_channel(channel: u8, alpha: u8) -> (out: u8)
    ensures
        out == scaled_channel(channel, alpha),
{
    assert(0 <= channel as int * alpha as int <= 255 * 255) by (nonlinear_arith)
        requires
            0 <= channel <= 255,
            0 <= alpha <= 255,
    ;
    let wide: u16 = channel as u16 * alpha as u16;
    (wide / 255) as u8
}

/// Scales the colour channels of a pixel by its alpha.
pub fn premultiply_pixel(p: Rgba8) -> (out: Rgba8)
    ensures
        out == premultiplied(p),
{
    Rgba8 {
        r: scale_channel(p.r, p.a),
        g: scale_channel(p.g, p.a),
        b: scale_channel(p.b, p.a),
        a: p.a,
    }
}

} // verus!
