//! Compiled shader blobs as the device takes them: 32-bit code words.
use crate::bytes::{le_word_at, read_le_word};
use vstd::prelude::*;

verus! {

/// The code words of the blob `code`: each group of four bytes, read
/// little-endian, in order; trailing bytes that do not fill a word are not
/// code.
pub open spec fn code_words(code: Seq<u8>) -> Seq<u32> {
    Seq::new(code.len() / 4, |i: int| le_word_at(code, i))
}

/// Turns a compiled shader blob into the code words handed to the device.
pub fn shader_words(code: &[u8]) -> (r: Vec<u32>)
    ensures
        r@ == code_words(code@),
{
    let n: usize = code.len() / 4;
    let mut words: Vec<u32> = Vec::new();
    let mut i: usize = 0;
    while i < n
        invariant
            n == code@.len() / 4,
            i <= n,
            words@ =~= Seq::new(i as nat, |k: int| le_word_at(code@, k)),
        decreases n - i,
    {
        words.push(read_le_word(code, i));
        i = i + 1;
    }
    words
}

} // verus!
