//! Little-endian packing of 32-bit words, the unit every GPU-visible block is
//! built from.
//!
//! A block is first laid out as a sequence of words; [`pack`] then fixes its
//! bytes. [`unpack`] is the inverse on every byte string whose length is a
//! multiple of four.

use vstd::prelude::*;

verus! {

/// 256 to the power `k`, for the four positions inside a word.
pub open spec fn place(k: int) -> int {
    if k <= 0 {
        1
    } else if k == 1 {
        0x100
    } else if k == 2 {
        0x1_0000
    } else {
        0x100_0000
    }
}

/// The byte of `word` at position `k`, counted from the least significant.
pub open spec fn byte_of(word: u32, k: int) -> u8 {
    ((word as int / place(k)) % 0x100) as u8
}

/// The four bytes of `word`, least significant first.
pub open spec fn word_bytes(word: u32) -> Seq<u8> {
    seq![byte_of(word, 0), byte_of(word, 1), byte_of(word, 2), byte_of(word, 3)]
}

/// The word whose bytes, least significant first, are `b0`, `b1`, `b2`, `b3`.
pub open spec fn word_of(b0: u8, b1: u8, b2: u8, b3: u8) -> u32 {
    (b0 as int + place(1) * b1 as int + place(2) * b2 as int + place(3) * b3 as int) as u32
}

/// The bytes of a sequence of words: word `i` fills bytes `4 * i` to
/// `4 * i + 3`.
pub open spec fn pack(words: Seq<u32>) -> Seq<u8> {
    Seq::new(4 * words.len(), |i: int| byte_of(words[i / 4], i % 4))
}

/// The words held by a byte string; trailing bytes that do not fill a word
/// are left out.
pub open spec fn unpack(bytes: Seq<u8>) -> Seq<u32> {
    Seq::new(
        (bytes.len() / 4) as nat,
        |k: int| word_of(bytes[4 * k], bytes[4 * k + 1], bytes[4 * k + 2], bytes[4 * k + 3]),
    )
}

/// Joining the bytes of a word gives the word back.
pub proof fn lemma_word_round_trip(word: u32)
    ensures
        word_of(byte_of(word, 0), byte_of(word, 1), byte_of(word, 2), byte_of(word, 3)) == word,
{
}

/// Splitting the word made of four bytes gives the four bytes back.
pub proof fn lemma_bytes_round_trip(b0: u8, b1: u8, b2: u8, b3: u8)
    ensures
        word_bytes(word_of(b0, b1, b2, b3)) == seq![b0, b1, b2, b3],
{
    let w = word_of(b0, b1, b2, b3);
    assert(byte_of(w, 0) == b0);
    assert(byte_of(w, 1) == b1);
    assert(byte_of(w, 2) == b2);
    assert(byte_of(w, 3) == b3);
}

/// Unpacking what was packed recovers every word.
pub proof fn lemma_unpack_pack(words: Seq<u32>)
    ensures
        unpack(pack(words)) == words,
{
    let bytes = pack(words);
    assert forall|k: int| 0 <= k < words.len() implies #[trigger] unpack(bytes)[k] == words[k] by {
        lemma_word_round_trip(words[k]);
        assert((4 * k) / 4 == k && (4 * k + 1) / 4 == k && (4 * k + 2) / 4 == k && (4 * k + 3) / 4
            == k);
    }
    assert(unpack(bytes) =~= words);
}

/// Packing what was unpacked recovers every byte of a whole number of words.
pub proof fn lemma_pack_unpack(bytes: Seq<u8>)
    requires
        bytes.len() % 4 == 0,
    ensures
        pack(unpack(bytes)) == bytes,
{
    let words = unpack(bytes);
    assert forall|i: int| 0 <= i < bytes.len() implies #[trigger] pack(words)[i] == bytes[i] by {
        let k = i / 4;
        lemma_bytes_round_trip(bytes[4 * k], bytes[4 * k + 1], bytes[4 * k + 2], bytes[4 * k + 3]);
        let quad = seq![bytes[4 * k], bytes[4 * k + 1], bytes[4 * k + 2], bytes[4 * k + 3]];
        assert(word_bytes(words[k])[i % 4] == quad[i % 4]);
    }
    assert(pack(words) =~= bytes);
}

/// Packing commutes with taking a run of words: the bytes of words `from`
/// up to `to` are bytes `4 * from` up to `4 * to` of the whole.
pub proof fn lemma_pack_subrange(words: Seq<u32>, from: int, to: int)
    requires
        0 <= from <= to <= words.len(),
    ensures
        pack(words).subrange(4 * from, 4 * to) == pack(words.subrange(from, to)),
{
    let whole = pack(words).subrange(4 * from, 4 * to);
    let part = pack(words.subrange(from, to));
    assert forall|i: int| 0 <= i < whole.len() implies whole[i] == part[i] by {
        assert((4 * from + i) / 4 == from + i / 4);
        assert((4 * from + i) % 4 == i % 4);
    }
    assert(whole =~= part);
}

/// Splits a word into its four bytes, least significant first.
pub fn split_word(word: u32) -> (out: [u8; 4])
    ensures
        out@ == word_bytes(word),
{
    let b0: u8 = (word % 0x100) as u8;
    let b1: u8 = ((word / 0x100) % 0x100) as u8;
    let b2: u8 = ((word / 0x1_0000) % 0x100) as u8;
    let b3: u8 = ((word / 0x100_0000) % 0x100) as u8;
    let out: [u8; 4] = [b0, b1, b2, b3];
    assert(out@ =~= word_bytes(word));
    out
}

/// Joins four bytes, least significant first, into a word.
pub fn join_word(b0: u8, b1: u8, b2: u8, b3: u8) -> (word: u32)
    ensures
        word == word_of(b0, b1, b2, b3),
{
    let w0: u32 = b0 as u32;
    let w1: u32 = b1 as u32;
    let w2: u32 = b2 as u32;
    let w3: u32 = b3 as u32;
    w0 + 0x100 * w1 + 0x1_0000 * w2 + 0x100_0000 * w3
}

/// Packs `words` into bytes.
pub fn pack_words(words: &[u32]) -> (out: Vec<u8>)
    ensures
        out@ == pack(words@),
{
    let mut out: Vec<u8> = Vec::new();
    let mut i: usize = 0;
    while i < words.len()
        invariant
            i <= words@.len(),
            out@ == pack(words@.take(i as int)),
        decreases words@.len() - i,
    {
        let quad = split_word(words[i]);
        let ghost before = out@;
        out.push(quad[0]);
        out.push(quad[1]);
        out.push(quad[2]);
        out.push(quad[3]);
        proof {
            let next = words@.take(i as int + 1);
            assert forall|j: int| 0 <= j < out@.len() implies out@[j] == pack(next)[j] by {
                if j < 4 * i {
                    assert(before[j] == pack(words@.take(i as int))[j]);
                } else {
                    assert(j / 4 == i as int);
                    assert(out@[j] == quad@[j - 4 * i]);
                }
            }
            assert(out@ =~= pack(next));
        }
        i = i + 1;
    }
    assert(words@.take(i as int) =~= words@);
    out
}

/// Unpacks `bytes` into words; `None` unless the length is a multiple of four.
pub fn unpack_words(bytes: &[u8]) -> (out: Option<Vec<u32>>)
    ensures
        out is Some <==> bytes@.len() % 4 == 0,
        out matches Some(words) ==> words@ == unpack(bytes@),
{
    let n: usize = bytes.len();
    if n % 4 != 0 {
        return None;
    }
    let mut words: Vec<u32> = Vec::new();
    let mut i: usize = 0;
    while i < n
        invariant
            n == bytes@.len(),
            n % 4 == 0,
            i % 4 == 0,
            i <= n,
            words@.len() == i / 4,
            forall|k: int| 0 <= k < words@.len() ==> words@[k] == unpack(bytes@)[k],
        decreases n - i,
    {
        let w = join_word(bytes[i], bytes[i + 1], bytes[i + 2], bytes[i + 3]);
        words.push(w);
        i = i + 4;
    }
    assert(words@ =~= unpack(bytes@));
    Some(words)
}

} // verus!
