//! The program image format: 16-bit words, low byte first, one after another
//! to the end of the data.

use byteorder::{ByteOrder, LittleEndian};
use vstd::prelude::*;
use vstd::slice::slice_subrange;

verus! {

/// Why a sequence of bytes is no program image.
#[derive(Clone, Copy, Debug, PartialEq, Eq, Structural)]
pub enum ImageError {
    /// The data ends in the middle of a word.
    TrailingByte,
}

/// The word that the bytes `lo` and `hi` encode, low byte first.
pub open spec fn word_of(lo: u8, hi: u8) -> u16 {
    (lo + 256 * hi) as u16
}

/// The words that `bytes` encode, two bytes to a word.
pub open spec fn words_of(bytes: Seq<u8>) -> Seq<u16> {
    Seq::new(bytes.len() / 2, |i: int| word_of(bytes[2 * i], bytes[2 * i + 1]))
}

/// Reads the first two bytes of `pair` as a little-endian word.
///
/// Calls `byteorder::LittleEndian::read_u16`, which panics on fewer than two
/// bytes and otherwise returns `u16::from_le_bytes` of the first two: the
/// first byte is the low one. The contract says exactly that and is trusted:
/// Verus does not read the body.
#[verifier::external_body]
fn read_word(pair: &[u8]) -> (w: u16)
    requires
        pair@.len() >= 2,
    ensures
        w == word_of(pair@[0], pair@[1]),
{
    LittleEndian::read_u16(pair)
}

/// Decodes a program image into its words.
///
/// Fails if and only if the number of bytes is odd.
pub fn decode_image(bytes: &[u8]) -> (r: Result<Vec<u16>, ImageError>)
    ensures
        match r {
            Ok(words) => bytes@.len() % 2 == 0 && words@ == words_of(bytes@),
            Err(e) => bytes@.len() % 2 == 1 && e == ImageError::TrailingByte,
        },
{
    let n = bytes.len();
    if n % 2 != 0 {
        return Err(ImageError::TrailingByte);
    }
    let mut words: Vec<u16> = Vec::new();
    let mut i: usize = 0;
    while i < n
        invariant
            n == bytes@.len(),
            n % 2 == 0,
            i % 2 == 0,
            i <= n,
            words@.len() == i / 2,
            forall|k: int|
                0 <= k < words@.len() ==> words@[k] == word_of(bytes@[2 * k], bytes@[2 * k + 1]),
        decreases n - i,
    {
        let pair = slice_subrange(bytes, i, i + 2);
        words.push(read_word(pair));
        i += 2;
    }
    Ok(words)
}

} // verus!
