use vstd::prelude::*;

use crate::error::Error;

verus! {

/// The SPIR-V magic number, as the first word of every valid binary.
pub const SPIRV_MAGIC: u32 = 0x0723_0203;

/// Word `i` of a byte string read little-endian.
pub open spec fn spec_word_le(bytes: Seq<u8>, i: int) -> int {
    bytes[4 * i] + 0x100 * bytes[4 * i + 1] + 0x1_0000 * bytes[4 * i + 2] + 0x100_0000 * bytes[4 * i
        + 3]
}

/// Word `i` of a byte string read big-endian.
pub open spec fn spec_word_be(bytes: Seq<u8>, i: int) -> int {
    bytes[4 * i + 3] + 0x100 * bytes[4 * i + 2] + 0x1_0000 * bytes[4 * i + 1] + 0x100_0000
        * bytes[4 * i]
}

/// Word `i` of the byte string, read little-endian.
fn word_le(bytes: &[u8], i: usize) -> (r: u32)
    requires
        4 * i + 3 < bytes@.len(),
        bytes@.len() <= usize::MAX,
    ensures
        r == spec_word_le(bytes@, i as int),
{
    let base = 4 * i;
    (bytes[base] as u32) + 0x100 * (bytes[base + 1] as u32) + 0x1_0000 * (bytes[base + 2] as u32)
        + 0x100_0000 * (bytes[base + 3] as u32)
}

/// Word `i` of the byte string, read big-endian.
fn word_be(bytes: &[u8], i: usize) -> (r: u32)
    requires
        4 * i + 3 < bytes@.len(),
        bytes@.len() <= usize::MAX,
    ensures
        r == spec_word_be(bytes@, i as int),
{
    let base = 4 * i;
    (bytes[base + 3] as u32) + 0x100 * (bytes[base + 2] as u32) + 0x1_0000 * (bytes[base + 1]
        as u32) + 0x100_0000 * (bytes[base] as u32)
}

/// Whether a shader binary is rejected: its length is not a whole number of
/// words, or its first word is not the SPIR-V magic number in either byte
/// order.
pub open spec fn spec_spirv_rejected(bytes: Seq<u8>) -> bool {
    ||| bytes.len() % 4 != 0
    ||| bytes.len() == 0
    ||| (spec_word_le(bytes, 0) != SPIRV_MAGIC && spec_word_be(bytes, 0) != SPIRV_MAGIC)
}

/// Decodes a shader binary into its words, accepting either byte order and
/// returning the words in the host's order: the first decoded word always
/// equals the magic number.  Rejects a length that is not a multiple of four
/// with [`Error::InvalidSpirvLength`], and a missing magic number with
/// [`Error::InvalidSpirvMagic`].
pub fn decode_spirv_words(bytes: &[u8]) -> (r: Result<Vec<u32>, Error>)
    ensures
        r is Err <==> spec_spirv_rejected(bytes@),
        match r {
            Ok(words) => {
                &&& words@.len() == bytes@.len() / 4
                &&& words@[0] == SPIRV_MAGIC
                &&& spec_word_le(bytes@, 0) == SPIRV_MAGIC ==> forall|i: int|
                    0 <= i < words@.len() ==> words@[i] == spec_word_le(bytes@, i)
                &&& spec_word_le(bytes@, 0) != SPIRV_MAGIC ==> forall|i: int|
                    0 <= i < words@.len() ==> words@[i] == spec_word_be(bytes@, i)
            },
            Err(e) => {
                &&& (e == Error::InvalidSpirvLength <==> bytes@.len() % 4 != 0)
                &&& (e == Error::InvalidSpirvMagic <==> bytes@.len() % 4 == 0)
            },
        },
{
    if bytes.len() % 4 != 0 {
        return Err(Error::InvalidSpirvLength);
    }
    if bytes.len() == 0 {
        return Err(Error::InvalidSpirvMagic);
    }
    let first = word_le(bytes, 0);
    if first == SPIRV_MAGIC {
        let mut words: Vec<u32> = Vec::new();
        let count = bytes.len() / 4;
        let mut i: usize = 0;
        while i < count
            invariant
                i <= count,
                count == bytes@.len() / 4,
                bytes@.len() % 4 == 0,
                bytes@.len() <= usize::MAX,
                words@.len() == i,
                forall|k: int| 0 <= k < i ==> words@[k] == spec_word_le(bytes@, k),
            decreases count - i,
        {
            words.push(word_le(bytes, i));
            i = i + 1;
        }
        Ok(words)
    } else {
        let swapped = word_be(bytes, 0);
        if swapped == SPIRV_MAGIC {
            let mut words: Vec<u32> = Vec::new();
            let count = bytes.len() / 4;
            let mut i: usize = 0;
            while i < count
                invariant
                    i <= count,
                    count == bytes@.len() / 4,
                    bytes@.len() % 4 == 0,
                    bytes@.len() <= usize::MAX,
                    words@.len() == i,
                    forall|k: int| 0 <= k < i ==> words@[k] == spec_word_be(bytes@, k),
                decreases count - i,
            {
                words.push(word_be(bytes, i));
                i = i + 1;
            }
            Ok(words)
        } else {
            Err(Error::InvalidSpirvMagic)
        }
    }
}

} // verus!
