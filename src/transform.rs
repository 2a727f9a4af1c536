//! The view-projection transform as it lies in a frame slot's mapped uniform
//! buffer: sixteen 32-bit words (the bit patterns of a column-major 4x4 matrix
//! of single-precision floats), each stored little-endian, in order.
use crate::bytes::{le_byte, le_word_at, lemma_word_bytes_round_trip, read_le_word, write_le_word};
use vstd::prelude::*;

verus! {

/// Number of words in a transform.
pub const TRANSFORM_WORDS: usize = 16;

/// Size in bytes of a transform, and of the uniform buffer that holds one.
pub const TRANSFORM_BYTES: usize = 64;

/// The bytes that hold the transform `m`.
pub open spec fn transform_image(m: Seq<u32>) -> Seq<u8> {
    Seq::new(TRANSFORM_BYTES as nat, |j: int| le_byte(m[j / 4], (j % 4) as u32))
}

/// The transform held by the first `TRANSFORM_BYTES` bytes of `b`.
pub open spec fn transform_in(b: Seq<u8>) -> Seq<u32> {
    Seq::new(TRANSFORM_WORDS as nat, |i: int| le_word_at(b, i))
}

/// Writes the transform `m` into the first `TRANSFORM_BYTES` bytes of the
/// mapped region `dst`; the bytes after them are left as they were.
pub fn write_transform(dst: &mut [u8], m: &[u32; 16])
    requires
        old(dst)@.len() >= TRANSFORM_BYTES,
    ensures
        final(dst)@.len() == old(dst)@.len(),
        final(dst)@.subrange(0, TRANSFORM_BYTES as int) == transform_image(m@),
        final(dst)@.subrange(TRANSFORM_BYTES as int, old(dst)@.len() as int) == old(dst)@.subrange(
            TRANSFORM_BYTES as int,
            old(dst)@.len() as int,
        ),
{
    let ghost start = dst@;
    let mut i: usize = 0;
    while i < TRANSFORM_WORDS
        invariant
            0 <= i <= TRANSFORM_WORDS,
            dst@.len() == start.len(),
            start.len() >= TRANSFORM_BYTES,
            forall|j: int| 0 <= j < 4 * i ==> #[trigger] dst@[j] == transform_image(m@)[j],
            forall|j: int| 4 * i <= j < start.len() ==> #[trigger] dst@[j] == start[j],
        decreases TRANSFORM_WORDS - i,
    {
        write_le_word(dst, i, m[i]);
        i = i + 1;
    }
    assert(dst@.subrange(0, TRANSFORM_BYTES as int) =~= transform_image(m@));
    assert(dst@.subrange(TRANSFORM_BYTES as int, start.len() as int) =~= start.subrange(
        TRANSFORM_BYTES as int,
        start.len() as int,
    ));
}

/// Reads the transform held by the first `TRANSFORM_BYTES` bytes of `src`.
pub fn read_transform(src: &[u8]) -> (r: [u32; 16])
    requires
        src@.len() >= TRANSFORM_BYTES,
    ensures
        r@ == transform_in(src@),
{
    let mut r: [u32; 16] = [0u32; 16];
    let mut i: usize = 0;
    while i < TRANSFORM_WORDS
        invariant
            0 <= i <= TRANSFORM_WORDS,
            src@.len() >= TRANSFORM_BYTES,
            r@.len() == TRANSFORM_WORDS,
            forall|k: int| 0 <= k < i ==> #[trigger] r@[k] == le_word_at(src@, k),
        decreases TRANSFORM_WORDS - i,
    {
        r[i] = read_le_word(src, i);
        i = i + 1;
    }
    assert(r@ =~= transform_in(src@));
    r
}

/// A transform written into a mapped region reads back with the same bit
/// pattern, whatever the region held before and after it.
pub proof fn law_transform_round_trip(m: Seq<u32>, region: Seq<u8>)
    requires
        m.len() == TRANSFORM_WORDS,
        region.len() >= TRANSFORM_BYTES,
        region.subrange(0, TRANSFORM_BYTES as int) == transform_image(m),
    ensures
        transform_in(region) == m,
{
    assert forall|i: int| 0 <= i < TRANSFORM_WORDS implies #[trigger] transform_in(region)[i]
        == m[i] by {
        let img = transform_image(m);
        assert(region[4 * i] == img[4 * i]);
        assert(region[4 * i + 1] == img[4 * i + 1]);
        assert(region[4 * i + 2] == img[4 * i + 2]);
        assert(region[4 * i + 3] == img[4 * i + 3]);
        assert((4 * i) / 4 == i && (4 * i) % 4 == 0);
        assert((4 * i + 1) / 4 == i && (4 * i + 1) % 4 == 1);
        assert((4 * i + 2) / 4 == i && (4 * i + 2) % 4 == 2);
        assert((4 * i + 3) / 4 == i && (4 * i + 3) % 4 == 3);
        lemma_word_bytes_round_trip(m[i]);
    }
    assert(transform_in(region) =~= m);
}

} // verus!
