//! What the library itself reads of a PNG stream: the signature, the colour
//! type of the header, and the chain of chunk headers.
//!
//! After the eight bytes of the signature a PNG stream is a chain of chunks.
//! Each chunk is four bytes of length, big-endian, four bytes of type, as many
//! bytes of data as the length says, and four bytes of checksum.

use vstd::prelude::*;

verus! {

/// Offset of the first chunk: the length of the signature.
pub const FIRST_CHUNK: usize = 8;

/// Bytes of a chunk around its data: length, type and checksum.
pub const CHUNK_FRAME: usize = 12;

/// The bytes are long enough for a PNG header, open with the eight bytes of
/// the PNG signature, and give 3, a colour palette, as the colour type, which
/// is the byte at offset 25.
pub open spec fn is_indexed_png(bytes: Seq<u8>) -> bool {
    &&& bytes.len() >= 33
    &&& bytes[0] == 0x89
    &&& bytes[1] == 0x50
    &&& bytes[2] == 0x4E
    &&& bytes[3] == 0x47
    &&& bytes[4] == 0x0D
    &&& bytes[5] == 0x0A
    &&& bytes[6] == 0x1A
    &&& bytes[7] == 0x0A
    &&& bytes[25] == 3
}

/// The number that the four bytes from `at` on spell, most significant byte
/// first.
pub open spec fn be32(bytes: Seq<u8>, at: int) -> int {
    bytes[at] as int * 0x100_0000 + bytes[at + 1] as int * 0x1_0000 + bytes[at + 2] as int * 0x100
        + bytes[at + 3] as int
}

/// The chunk header at `at` names a palette: its type is `PLTE`.
pub open spec fn names_palette(bytes: Seq<u8>, at: int) -> bool {
    bytes[at + 4] == 0x50 && bytes[at + 5] == 0x4C && bytes[at + 6] == 0x54 && bytes[at + 7]
        == 0x45
}

/// In the chain of chunks that begins at `at`, every header that names a
/// palette gives a length that is a multiple of three: the palette is made of
/// whole entries. The chain ends where no header fits any more, or where a
/// chunk would run beyond the bytes.
pub open spec fn palettes_whole_from(bytes: Seq<u8>, at: int) -> bool
    decreases bytes.len() - at,
{
    if at < 0 || at + 8 > bytes.len() {
        true
    } else {
        let length = be32(bytes, at);
        &&& names_palette(bytes, at) ==> length % 3 == 0
        &&& (at + 12 + length <= bytes.len() ==> palettes_whole_from(bytes, at + 12 + length))
    }
}

/// Every palette chunk of the stream is made of whole entries.
pub open spec fn palettes_whole(bytes: Seq<u8>) -> bool {
    palettes_whole_from(bytes, 8)
}

/// Whether the bytes declare a PNG image with a colour palette.
pub fn indexed_png(bytes: &[u8]) -> (b: bool)
    ensures
        b == is_indexed_png(bytes@),
{
    bytes.len() >= 33 && bytes[0] == 0x89 && bytes[1] == 0x50 && bytes[2] == 0x4E && bytes[3]
        == 0x47 && bytes[4] == 0x0D && bytes[5] == 0x0A && bytes[6] == 0x1A && bytes[7] == 0x0A
        && bytes[25] == 3
}

/// Reads four bytes as a number, most significant byte first.
pub fn read_be32(bytes: &[u8], at: usize) -> (n: u32)
    requires
        at + 4 <= bytes@.len(),
    ensures
        n == be32(bytes@, at as int),
{
    let b0: u32 = bytes[at] as u32;
    let b1: u32 = bytes[at + 1] as u32;
    let b2: u32 = bytes[at + 2] as u32;
    let b3: u32 = bytes[at + 3] as u32;
    b0 * 0x100_0000 + b1 * 0x1_0000 + b2 * 0x100 + b3
}

/// Walks the chain of chunk headers and tells whether every palette chunk is
/// made of whole entries.
pub fn palette_chunks_whole(bytes: &[u8]) -> (b: bool)
    ensures
        b == palettes_whole(bytes@),
{
    let total: usize = bytes.len();
    let mut at: usize = FIRST_CHUNK;
    while total >= 8 && at <= total - 8
        invariant
            total == bytes@.len(),
            8 <= at,
            palettes_whole(bytes@) == palettes_whole_from(bytes@, at as int),
        decreases total - at,
    {
        let length: u32 = read_be32(bytes, at);
        let palette: bool = bytes[at + 4] == 0x50 && bytes[at + 5] == 0x4C && bytes[at + 6] == 0x54
            && bytes[at + 7] == 0x45;
        if palette && length % 3 != 0 {
            return false;
        }
        let rest: usize = total - at;
        if rest < CHUNK_FRAME || length as usize > rest - CHUNK_FRAME {
            return true;
        }
        at = at + CHUNK_FRAME + length as usize;
    }
    true
}

} // verus!
