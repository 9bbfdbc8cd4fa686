//! Word-level layout of vectors and matrices.
//!
//! A matrix is an array of columns; its words are the columns one after the
//! other, each from its first row down.

use vstd::prelude::*;

verus! {

/// The words of a 4x4 matrix, column by column.
pub open spec fn matrix4_words(m: [[u32; 4]; 4]) -> Seq<u32> {
    Seq::new(16, |i: int| m[i / 4][i % 4])
}

/// The words of a 3x3 matrix, column by column.
pub open spec fn matrix3_words(m: [[u32; 3]; 3]) -> Seq<u32> {
    Seq::new(9, |i: int| m[i / 3][i % 3])
}

/// The 4x4 matrix whose words start at `words[at]`.
pub open spec fn matrix4_at(words: Seq<u32>, at: int) -> [[u32; 4]; 4] {
    [
        [words[at], words[at + 1], words[at + 2], words[at + 3]],
        [words[at + 4], words[at + 5], words[at + 6], words[at + 7]],
        [words[at + 8], words[at + 9], words[at + 10], words[at + 11]],
        [words[at + 12], words[at + 13], words[at + 14], words[at + 15]],
    ]
}

/// Reading a 4x4 matrix back from its own words gives the matrix.
pub proof fn lemma_matrix4_at_words(m: [[u32; 4]; 4], before: Seq<u32>, after: Seq<u32>)
    ensures
        matrix4_at(before + matrix4_words(m) + after, before.len() as int) == m,
{
    let words = before + matrix4_words(m) + after;
    let at = before.len() as int;
    let got = matrix4_at(words, at);
    assert forall|c: int| 0 <= c < 4 implies got[c] == m[c] by {
        assert forall|r: int| 0 <= r < 4 implies got[c][r] == m[c][r] by {
            assert(words[at + 4 * c + r] == matrix4_words(m)[4 * c + r]);
            assert((4 * c + r) / 4 == c && (4 * c + r) % 4 == r);
        }
        assert(got[c] =~= m[c]);
    }
    assert(got =~= m);
}

/// Appends the words of a 4x4 matrix to `out`.
pub fn push_matrix4(out: &mut Vec<u32>, m: &[[u32; 4]; 4])
    ensures
        final(out)@ == old(out)@ + matrix4_words(*m),
{
    let ghost start = out@;
    let mut c: usize = 0;
    while c < 4
        invariant
            c <= 4,
            out@.len() == start.len() + 4 * c,
            forall|i: int| 0 <= i < start.len() ==> out@[i] == start[i],
            forall|i: int| 0 <= i < 4 * c ==> out@[start.len() + i] == matrix4_words(*m)[i],
        decreases 4 - c,
    {
        let column = m[c];
        out.push(column[0]);
        out.push(column[1]);
        out.push(column[2]);
        out.push(column[3]);
        c = c + 1;
    }
    assert(out@ =~= start + matrix4_words(*m));
}

/// Appends the words of a 3x3 matrix to `out`.
pub fn push_matrix3(out: &mut Vec<u32>, m: &[[u32; 3]; 3])
    ensures
        final(out)@ == old(out)@ + matrix3_words(*m),
{
    let ghost start = out@;
    let mut c: usize = 0;
    while c < 3
        invariant
            c <= 3,
            out@.len() == start.len() + 3 * c,
            forall|i: int| 0 <= i < start.len() ==> out@[i] == start[i],
            forall|i: int| 0 <= i < 3 * c ==> out@[start.len() + i] == matrix3_words(*m)[i],
        decreases 3 - c,
    {
        let column = m[c];
        out.push(column[0]);
        out.push(column[1]);
        out.push(column[2]);
        c = c + 1;
    }
    assert(out@ =~= start + matrix3_words(*m));
}

/// Reads the 4x4 matrix whose words start at `words[at]`.
pub fn read_matrix4(words: &[u32], at: usize) -> (m: [[u32; 4]; 4])
    requires
        at + 16 <= words@.len(),
    ensures
        m == matrix4_at(words@, at as int),
{
    let m: [[u32; 4]; 4] = [
        [words[at], words[at + 1], words[at + 2], words[at + 3]],
        [words[at + 4], words[at + 5], words[at + 6], words[at + 7]],
        [words[at + 8], words[at + 9], words[at + 10], words[at + 11]],
        [words[at + 12], words[at + 13], words[at + 14], words[at + 15]],
    ];
    m
}

} // verus!
