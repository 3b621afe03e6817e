//! Shader bytecode decoding.
//!
//! Shader modules are built from 32-bit instruction words. A file arrives
//! as raw bytes; its length must be a multiple of four, and each word is
//! read from four consecutive bytes, least significant byte first.

use vstd::prelude::*;
use crate::errors::{VulkanError, VulkanResult};

verus! {

/// The word at position `i`, read least significant byte first.
pub open spec fn spec_word_at(bytes: Seq<u8>, i: int) -> u32 {
    (bytes[4 * i] + bytes[4 * i + 1] * 0x100 + bytes[4 * i + 2] * 0x10000 + bytes[4 * i + 3]
        * 0x1000000) as u32
}

/// Decode a byte buffer into instruction words. Fails exactly when the
/// byte length is not a multiple of four.
pub fn words_from_bytes(bytes: &Vec<u8>) -> (r: VulkanResult<Vec<u32>>)
    ensures
        match r {
            Ok(words) => {
                &&& bytes@.len() % 4 == 0
                &&& words@.len() == bytes@.len() / 4
                &&& forall|i: int|
                    0 <= i < words@.len() ==> #[trigger] words@[i] == spec_word_at(bytes@, i)
            },
            Err(e) => {
                &&& bytes@.len() % 4 != 0
                &&& e == VulkanError::ShaderCodeSizeError
            },
        },
{
    if bytes.len() % 4 != 0 {
        return Err(VulkanError::ShaderCodeSizeError);
    }
    let word_count: usize = bytes.len() / 4;
    let mut words: Vec<u32> = Vec::new();
    let mut i: usize = 0;
    while i < word_count
        invariant
            bytes@.len() <= usize::MAX,
            bytes@.len() % 4 == 0,
            word_count == bytes@.len() / 4,
            i <= word_count,
            words@.len() == i,
            forall|k: int| 0 <= k < i ==> #[trigger] words@[k] == spec_word_at(bytes@, k),
        decreases word_count - i,
    {
        proof {
            assert(bytes@.len() == 4 * word_count);
            assert(4 * i + 3 < bytes@.len());
        }
        let b0 = bytes[4 * i] as u32;
        let b1 = bytes[4 * i + 1] as u32;
        let b2 = bytes[4 * i + 2] as u32;
        let b3 = bytes[4 * i + 3] as u32;
        let word = b0 + b1 * 0x100 + b2 * 0x10000 + b3 * 0x1000000;
        words.push(word);
        i = i + 1;
    }
    Ok(words)
}

} // verus!
