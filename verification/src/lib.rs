//! Normalises decoded raster images of eight pixel encodings into one
//! canonical 8-bit RGBA buffer and hands that buffer to an AVIF codec under a
//! small, validated set of encoder parameters.

pub mod pixel;
pub mod png;
pub mod source;
pub mod normalize;
pub mod laws;
pub mod decode;
pub mod encode;
