//! Shader binary validation.
//!
//! The two precompiled shader binaries are loaded from disk by the
//! unverified shell; this module turns the raw bytes into the 32-bit words
//! the graphics API expects and validates them: the byte length must be a
//! whole number of words and the first word must equal the standard
//! binary-shader magic number.  Words are assembled little-endian, as the
//! binaries are laid out on disk.

use crate::error::RenderError;
use vstd::prelude::*;

verus! {

/// The standard binary-shader magic number: the required first word.
pub const SPV_MAGIC: u32 = 0x0723_0203;

/// Word `i` of the byte stream, assembled little-endian.
pub open spec fn spec_word_at(bytes: Seq<u8>, i: int) -> u32 {
    (bytes[4 * i] as u32) | ((bytes[4 * i + 1] as u32) << 8) | ((bytes[4 * i + 2] as u32) << 16)
        | ((bytes[4 * i + 3] as u32) << 24)
}

/// The whole byte stream as little-endian words.
pub open spec fn spec_words_of(bytes: Seq<u8>) -> Seq<u32> {
    Seq::new((bytes.len() / 4) as nat, |i: int| spec_word_at(bytes, i))
}

/// Assembles and validates a shader binary: rejects a byte length that is
/// not a whole number of words, an empty binary, and a first word that is
/// not the binary-shader magic; otherwise returns every word.
pub fn parse_shader_words(bytes: &Vec<u8>) -> (r: Result<Vec<u32>, RenderError>)
    ensures
        match r {
            Ok(words) => {
                &&& bytes@.len() % 4 == 0
                &&& bytes@.len() > 0
                &&& words@ == spec_words_of(bytes@)
                &&& words@.len() == bytes@.len() / 4
                &&& words@[0] == SPV_MAGIC
            },
            Err(RenderError::ShaderNotWordAligned) => bytes@.len() % 4 != 0,
            Err(RenderError::ShaderEmpty) => bytes@.len() == 0,
            Err(RenderError::ShaderBadMagic) => {
                &&& bytes@.len() % 4 == 0
                &&& bytes@.len() > 0
                &&& spec_word_at(bytes@, 0) != SPV_MAGIC
            },
            Err(_) => false,
        },
{
    if bytes.len() % 4 != 0 {
        return Err(RenderError::ShaderNotWordAligned);
    }
    let word_count = bytes.len() / 4;
    if word_count == 0 {
        return Err(RenderError::ShaderEmpty);
    }
    let mut words: Vec<u32> = Vec::new();
    let mut i: usize = 0;
    while i < word_count
        invariant
            0 <= i <= word_count,
            word_count == bytes@.len() / 4,
            bytes@.len() % 4 == 0,
            bytes@.len() <= usize::MAX,
            4 * (word_count as int) == bytes@.len(),
            words@.len() == i,
            forall|j: int| 0 <= j < i ==> words@[j] == spec_word_at(bytes@, j),
        decreases word_count - i,
    {
        proof {
            assert(bytes@.len() == 4 * (bytes@.len() / 4) + bytes@.len() % 4);
            assert(4 * (i as int) + 3 < bytes@.len());
        }
        let b0 = bytes[4 * i] as u32;
        let b1 = bytes[4 * i + 1] as u32;
        let b2 = bytes[4 * i + 2] as u32;
        let b3 = bytes[4 * i + 3] as u32;
        let w = b0 | (b1 << 8u32) | (b2 << 16u32) | (b3 << 24u32);
        words.push(w);
        i = i + 1;
    }
    proof {
        assert(words@ =~= spec_words_of(bytes@));
    }
    if words[0] != SPV_MAGIC {
        return Err(RenderError::ShaderBadMagic);
    }
    Ok(words)
}

} // verus!
