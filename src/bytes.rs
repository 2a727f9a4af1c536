//! Little-endian 32-bit words in byte buffers.
use vstd::prelude::*;

verus! {

/// Byte `k` (0 = least significant) of the word `w`.
pub open spec fn le_byte(w: u32, k: u32) -> u8 {
    ((w >> (8 * k)) & 0xff) as u8
}

/// The word stored little-endian in the four bytes `b0..b3`.
pub open spec fn le_word_of(b0: u8, b1: u8, b2: u8, b3: u8) -> u32 {
    (b0 as u32) | ((b1 as u32) << 8u32) | ((b2 as u32) << 16u32) | ((b3 as u32) << 24u32)
}

/// The little-endian word that starts at byte `4 * i` of `b`.
pub open spec fn le_word_at(b: Seq<u8>, i: int) -> u32 {
    le_word_of(b[4 * i], b[4 * i + 1], b[4 * i + 2], b[4 * i + 3])
}

/// Splitting a word into its four bytes and joining them again gives the word back.
pub proof fn lemma_word_bytes_round_trip(w: u32)
    ensures
        le_word_of(le_byte(w, 0), le_byte(w, 1), le_byte(w, 2), le_byte(w, 3)) == w,
{
    assert((((w >> 0u32) & 0xff) as u8 as u32) | ((((w >> 8u32) & 0xff) as u8 as u32) << 8u32)
        | ((((w >> 16u32) & 0xff) as u8 as u32) << 16u32) | ((((w >> 24u32) & 0xff) as u8 as u32)
        << 24u32) == w) by (bit_vector);
}

/// Reads the little-endian word that starts at byte `4 * i` of `b`.
pub fn read_le_word(b: &[u8], i: usize) -> (r: u32)
    requires
        4 * i + 4 <= b@.len(),
    ensures
        r == le_word_at(b@, i as int),
{
    // The slice's length is a usize, which bounds the byte index.
    let len: usize = b.len();
    let j: usize = 4 * i;
    assert(j + 3 < len);
    (b[j] as u32) | ((b[j + 1] as u32) << 8u32) | ((b[j + 2] as u32) << 16u32) | ((b[j + 3] as u32)
        << 24u32)
}

/// Stores `w` little-endian at bytes `4 * i .. 4 * i + 4` of `b`, leaving the
/// other bytes as they were.
pub fn write_le_word(b: &mut [u8], i: usize, w: u32)
    requires
        4 * i + 4 <= old(b)@.len(),
    ensures
        final(b)@.len() == old(b)@.len(),
        forall|j: int|
            0 <= j < old(b)@.len() ==> #[trigger] final(b)@[j] == if 4 * i <= j < 4 * i + 4 {
                le_byte(w, (j - 4 * i) as u32)
            } else {
                old(b)@[j]
            },
{
    // The slice's length is a usize, which bounds the byte index.
    let len: usize = b.len();
    let j: usize = 4 * i;
    assert(j + 3 < len);
    b[j] = (w & 0xff) as u8;
    b[j + 1] = ((w >> 8u32) & 0xff) as u8;
    b[j + 2] = ((w >> 16u32) & 0xff) as u8;
    b[j + 3] = ((w >> 24u32) & 0xff) as u8;
    assert((w >> 0u32) == w) by (bit_vector);
}

} // verus!
