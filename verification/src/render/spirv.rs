//! SPIR-V binaries as compilers emit them, and the words a shader module is
//! created from.

use vstd::prelude::*;

verus! {

/// First word of every SPIR-V module.
pub const SPIRV_MAGIC: u32 = 0x0723_0203;

/// The `i`-th 32-bit word of `b`, read least significant byte first.
pub open spec fn le_word(b: Seq<u8>, i: int) -> int {
    b[4 * i] + 256 * b[4 * i + 1] + 65536 * b[4 * i + 2] + 16777216 * b[4 * i + 3]
}

/// The `i`-th 32-bit word of `b`, read most significant byte first.
pub open spec fn be_word(b: Seq<u8>, i: int) -> int {
    16777216 * b[4 * i] + 65536 * b[4 * i + 1] + 256 * b[4 * i + 2] + b[4 * i + 3]
}

/// The words of a SPIR-V binary, or `None` where the bytes are not one.
///
/// The length must be a positive multiple of four; the byte order is the one in
/// which the first word reads as the magic number.
pub open spec fn spirv_words(b: Seq<u8>) -> Option<Seq<u32>> {
    if b.len() == 0 || b.len() % 4 != 0 {
        None
    } else if le_word(b, 0) == SPIRV_MAGIC {
        Some(Seq::new(b.len() / 4, |i: int| le_word(b, i) as u32))
    } else if be_word(b, 0) == SPIRV_MAGIC {
        Some(Seq::new(b.len() / 4, |i: int| be_word(b, i) as u32))
    } else {
        None
    }
}

/// Byte `k` of `w`, counted from the least significant one.
pub open spec fn word_byte(w: u32, k: int) -> u8 {
    if k == 0 {
        (w & 0xff) as u8
    } else if k == 1 {
        ((w >> 8u32) & 0xff) as u8
    } else if k == 2 {
        ((w >> 16u32) & 0xff) as u8
    } else {
        ((w >> 24u32) & 0xff) as u8
    }
}

/// The words laid out least significant byte first.
pub open spec fn le_bytes(words: Seq<u32>) -> Seq<u8> {
    Seq::new(4 * words.len(), |j: int| word_byte(words[j / 4], j % 4))
}

/// The words laid out most significant byte first.
pub open spec fn be_bytes(words: Seq<u32>) -> Seq<u8> {
    Seq::new(4 * words.len(), |j: int| word_byte(words[j / 4], 3 - j % 4))
}

/// `wgpu::read_spirv` on bytes in memory, with its error dropped.
///
/// The source of `wgpu_types::read_spirv` fails unless the length is a multiple
/// of four; it reads native-endian words, swaps the bytes of every word when the
/// first one is the byte-swapped magic number, and fails when the first word is
/// then not the magic number (or there is none). On either byte order of the
/// machine that is `spirv_words` of the bytes.
#[verifier::external_body]
pub(crate) fn read_spirv_words(bytes: &[u8]) -> (r: Option<Vec<u32>>)
    ensures
        match r {
            Some(w) => spirv_words(bytes@) == Some(w@),
            None => spirv_words(bytes@) is None,
        },
{
    wgpu::read_spirv(std::io::Cursor::new(bytes)).ok()
}

proof fn lemma_word_bytes(w: u32)
    ensures
        w == (w & 0xff) as u8 + 256 * (((w >> 8u32) & 0xff) as u8) + 65536 * (((w >> 16u32)
            & 0xff) as u8) + 16777216 * (((w >> 24u32) & 0xff) as u8),
{
    assert(w == (w & 0xff) as u8 + 256 * (((w >> 8u32) & 0xff) as u8) + 65536 * (((w >> 16u32)
        & 0xff) as u8) + 16777216 * (((w >> 24u32) & 0xff) as u8)) by (bit_vector);
}

proof fn lemma_index_split(i: int, k: int)
    requires
        0 <= k < 4,
    ensures
        (4 * i + k) / 4 == i,
        (4 * i + k) % 4 == k,
{
}

/// A SPIR-V module laid out least significant byte first, as a compiler on a
/// little-endian machine emits it, decodes to exactly its words.
pub proof fn lemma_spirv_le_round_trip(words: Seq<u32>)
    requires
        words.len() > 0,
        words[0] == SPIRV_MAGIC,
    ensures
        spirv_words(le_bytes(words)) == Some(words),
{
    let b = le_bytes(words);
    assert forall|i: int| 0 <= i < words.len() implies le_word(b, i) == words[i] by {
        lemma_index_split(i, 0);
        lemma_index_split(i, 1);
        lemma_index_split(i, 2);
        lemma_index_split(i, 3);
        lemma_word_bytes(words[i]);
    }
    assert(b.len() % 4 == 0);
    assert(b.len() / 4 == words.len());
    assert(le_word(b, 0) == SPIRV_MAGIC);
    assert(Seq::new(b.len() / 4, |i: int| le_word(b, i) as u32) =~= words);
}

/// A SPIR-V module laid out most significant byte first, as a compiler on a
/// big-endian machine emits it, decodes to exactly its words as well.
pub proof fn lemma_spirv_be_round_trip(words: Seq<u32>)
    requires
        words.len() > 0,
        words[0] == SPIRV_MAGIC,
    ensures
        spirv_words(be_bytes(words)) == Some(words),
{
    let b = be_bytes(words);
    assert forall|i: int| 0 <= i < words.len() implies be_word(b, i) == words[i] by {
        lemma_index_split(i, 0);
        lemma_index_split(i, 1);
        lemma_index_split(i, 2);
        lemma_index_split(i, 3);
        lemma_word_bytes(words[i]);
    }
    let m: u32 = words[0];
    lemma_index_split(0, 0);
    lemma_index_split(0, 1);
    lemma_index_split(0, 2);
    lemma_index_split(0, 3);
    assert(((m >> 24u32) & 0xff) as u8 + 256 * (((m >> 16u32) & 0xff) as u8) + 65536 * (((m
        >> 8u32) & 0xff) as u8) + 16777216 * ((m & 0xff) as u8) != 0x0723_0203) by (bit_vector)
        requires
            m == 0x0723_0203u32,
    ;
    assert(le_word(b, 0) != SPIRV_MAGIC);
    assert(b.len() % 4 == 0);
    assert(b.len() / 4 == words.len());
    assert(Seq::new(b.len() / 4, |i: int| be_word(b, i) as u32) =~= words);
}

} // verus!
