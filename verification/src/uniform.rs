//! The two uniform blocks the shaders read: the camera transform and the
//! point light.
//!
//! Each block states its layout as a sequence of words. The bytes the GPU
//! sees are [`pack`] of those words, and [`CameraUniform::decode`] and
//! [`LightUniform::decode`] read a block back from them.

use vstd::prelude::*;
use crate::bytes::{
    lemma_pack_subrange, lemma_unpack_pack, pack, pack_words, unpack, unpack_words,
};
use crate::scalar::{ONE, TWO, ZERO};
use crate::words::{
    lemma_matrix4_at_words, matrix4_at, matrix4_words, push_matrix4, read_matrix4,
};

verus! {

/// Size of the camera block in bytes: four words of position and sixteen of
/// matrix, with nothing between them.
pub const CAMERA_UNIFORM_SIZE: usize = 80;

/// Size of the light block in bytes: position and colour, each padded to
/// sixteen bytes.
pub const LIGHT_UNIFORM_SIZE: usize = 32;

/// Degrees per second by which the light turns about the vertical axis.
pub const ORBIT_DEGREES_PER_SECOND: u64 = 60;

/// The identity matrix.
pub open spec fn identity_matrix() -> [[u32; 4]; 4] {
    [
        [ONE, ZERO, ZERO, ZERO],
        [ZERO, ONE, ZERO, ZERO],
        [ZERO, ZERO, ONE, ZERO],
        [ZERO, ZERO, ZERO, ONE],
    ]
}

/// The camera as the shaders see it: where the viewer stands, and the
/// matrix that takes world space to clip space.
#[derive(Clone, Copy, Debug, PartialEq, Eq)]
pub struct CameraUniform {
    /// Viewer position in homogeneous coordinates.
    pub view_position: [u32; 4],
    /// Projection times view, as four columns.
    pub view_proj: [[u32; 4]; 4],
}

impl CameraUniform {
    /// The words of the block: the position, then the matrix column by
    /// column.
    pub open spec fn words(self) -> Seq<u32> {
        self.view_position@ + matrix4_words(self.view_proj)
    }

    /// The block that a sequence of twenty words describes.
    pub open spec fn of_words(words: Seq<u32>) -> CameraUniform {
        CameraUniform {
            view_position: [words[0], words[1], words[2], words[3]],
            view_proj: matrix4_at(words, 4),
        }
    }

    /// The block held by a byte string, if the string has the block's size.
    pub open spec fn decode(bytes: Seq<u8>) -> Option<CameraUniform> {
        if bytes.len() == CAMERA_UNIFORM_SIZE {
            Some(Self::of_words(unpack(bytes)))
        } else {
            None
        }
    }

    /// The block of a viewer at `position` with the transform `view_proj`:
    /// the position gains a last component of one.
    pub open spec fn looking(position: [u32; 3], view_proj: [[u32; 4]; 4]) -> CameraUniform {
        CameraUniform { view_position: [position[0], position[1], position[2], ONE], view_proj }
    }

    /// A camera at the origin with the identity transform.
    pub open spec fn at_rest() -> CameraUniform {
        CameraUniform { view_position: [ZERO, ZERO, ZERO, ZERO], view_proj: identity_matrix() }
    }

    /// A camera at the origin with the identity transform.
    pub fn new() -> (out: Self)
        ensures
            out == Self::at_rest(),
    {
        let out = CameraUniform {
            view_position: [ZERO, ZERO, ZERO, ZERO],
            view_proj: [
                [ONE, ZERO, ZERO, ZERO],
                [ZERO, ONE, ZERO, ZERO],
                [ZERO, ZERO, ONE, ZERO],
                [ZERO, ZERO, ZERO, ONE],
            ],
        };
        assert(out.view_position =~= Self::at_rest().view_position);
        assert forall|c: int| 0 <= c < 4 implies out.view_proj[c] == identity_matrix()[c] by {
            assert(out.view_proj[c] =~= identity_matrix()[c]);
        }
        assert(out.view_proj =~= identity_matrix());
        out
    }

    /// Takes over the viewer's position, promoted to homogeneous
    /// coordinates with a last component of one, and the product of the
    /// projection and view matrices.
    pub fn update_view_proj(&mut self, position: [u32; 3], view_proj: [[u32; 4]; 4])
        ensures
            *final(self) == Self::looking(position, view_proj),
    {
        self.view_position = [position[0], position[1], position[2], ONE];
        self.view_proj = view_proj;
        assert(self.view_position =~= Self::looking(position, view_proj).view_position);
    }

    /// The block as words.
    pub fn to_words(&self) -> (out: Vec<u32>)
        ensures
            out@ == self.words(),
    {
        let mut out: Vec<u32> = Vec::new();
        out.push(self.view_position[0]);
        out.push(self.view_position[1]);
        out.push(self.view_position[2]);
        out.push(self.view_position[3]);
        assert(out@ =~= self.view_position@);
        push_matrix4(&mut out, &self.view_proj);
        out
    }

    /// The block as the bytes that are written to its buffer.
    pub fn to_bytes(&self) -> (out: Vec<u8>)
        ensures
            out@ == pack(self.words()),
            out@.len() == CAMERA_UNIFORM_SIZE,
    {
        let words = self.to_words();
        pack_words(words.as_slice())
    }

    /// Reads a block from the bytes of its buffer.
    pub fn from_bytes(bytes: &[u8]) -> (out: Option<Self>)
        ensures
            out == Self::decode(bytes@),
    {
        if bytes.len() != CAMERA_UNIFORM_SIZE {
            return None;
        }
        match unpack_words(bytes) {
            Some(words) => {
                let slice = words.as_slice();
                Some(
                    CameraUniform {
                        view_position: [slice[0], slice[1], slice[2], slice[3]],
                        view_proj: read_matrix4(slice, 4),
                    },
                )
            },
            None => None,
        }
    }
}

/// Reading a camera block back from its own words gives the block.
pub proof fn lemma_camera_of_words(block: CameraUniform)
    ensures
        block.words().len() == 20,
        CameraUniform::of_words(block.words()) == block,
{
    let words = block.words();
    lemma_matrix4_at_words(block.view_proj, block.view_position@, Seq::empty());
    assert(block.view_position@ + matrix4_words(block.view_proj) + Seq::<u32>::empty() =~= words);
    let got = CameraUniform::of_words(words);
    assert(got.view_position =~= block.view_position);
}

/// Round trip of the camera block: decoding the bytes of a block gives the
/// block back, every word as it was.
pub proof fn lemma_camera_round_trip(block: CameraUniform)
    ensures
        CameraUniform::decode(pack(block.words())) == Some(block),
{
    lemma_camera_of_words(block);
    lemma_unpack_pack(block.words());
}

/// Where the fields of the camera block lie in its bytes: the position in
/// the first sixteen, then the four columns of the matrix, sixteen bytes
/// each, with nothing in between.
pub proof fn lemma_camera_layout(block: CameraUniform, column: int)
    requires
        0 <= column < 4,
    ensures
        pack(block.words()).len() == CAMERA_UNIFORM_SIZE,
        pack(block.words()).subrange(0, 16) == pack(block.view_position@),
        pack(block.words()).subrange(16 + 16 * column, 32 + 16 * column) == pack(
            block.view_proj[column]@,
        ),
{
    let words = block.words();
    lemma_pack_subrange(words, 0, 4);
    assert(words.subrange(0, 4) =~= block.view_position@);
    lemma_pack_subrange(words, 4 + 4 * column, 8 + 4 * column);
    assert forall|r: int| 0 <= r < 4 implies words[4 + 4 * column + r]
        == block.view_proj[column][r] by {
        assert(words[4 + 4 * column + r] == matrix4_words(block.view_proj)[4 * column + r]);
        assert((4 * column + r) / 4 == column && (4 * column + r) % 4 == r);
    }
    assert(words.subrange(4 + 4 * column, 8 + 4 * column) =~= block.view_proj[column]@);
}

/// The point light as the shaders see it.
///
/// In the buffer each of the two vectors is followed by one word of padding,
/// so that both start on a sixteen-byte boundary.
#[derive(Clone, Copy, Debug, PartialEq, Eq)]
pub struct LightUniform {
    /// Where the light is.
    pub position: [u32; 3],
    /// Its colour, red, green, blue.
    pub color: [u32; 3],
}

impl LightUniform {
    /// The words of the block: position, padding, colour, padding.
    pub open spec fn words(self) -> Seq<u32> {
        seq![
            self.position[0],
            self.position[1],
            self.position[2],
            0u32,
            self.color[0],
            self.color[1],
            self.color[2],
            0u32,
        ]
    }

    /// The block that a sequence of eight words describes; the padding is
    /// not read.
    pub open spec fn of_words(words: Seq<u32>) -> LightUniform {
        LightUniform {
            position: [words[0], words[1], words[2]],
            color: [words[4], words[5], words[6]],
        }
    }

    /// The block held by a byte string, if the string has the block's size.
    pub open spec fn decode(bytes: Seq<u8>) -> Option<LightUniform> {
        if bytes.len() == LIGHT_UNIFORM_SIZE {
            Some(Self::of_words(unpack(bytes)))
        } else {
            None
        }
    }

    /// The angle, in billionths of a degree, that the light turns in `nanos`
    /// nanoseconds.
    pub open spec fn orbit_angle(nanos: nat) -> nat {
        ORBIT_DEGREES_PER_SECOND as nat * nanos
    }

    /// The light at the start: white, at two units along every axis.
    pub open spec fn initial() -> LightUniform {
        LightUniform { position: [TWO, TWO, TWO], color: [ONE, ONE, ONE] }
    }

    /// The light at the start: white, at two units along every axis.
    pub fn new() -> (out: Self)
        ensures
            out == Self::initial(),
    {
        let out = LightUniform { position: [TWO, TWO, TWO], color: [ONE, ONE, ONE] };
        assert(out.position =~= Self::initial().position);
        assert(out.color =~= Self::initial().color);
        out
    }

    /// The angle by which the light turns about the vertical axis when
    /// `nanos` nanoseconds pass, in billionths of a degree. A second is a
    /// billion nanoseconds, so the unit makes the rate exact.
    pub fn orbit_step(nanos: u64) -> (angle: u128)
        ensures
            angle == Self::orbit_angle(nanos as nat),
    {
        let rate: u128 = ORBIT_DEGREES_PER_SECOND as u128;
        let span: u128 = nanos as u128;
        rate * span
    }

    /// The same light at another place.
    pub fn moved_to(&self, position: [u32; 3]) -> (out: Self)
        ensures
            out == (LightUniform { position, color: self.color }),
    {
        LightUniform { position, color: self.color }
    }

    /// The block as words.
    pub fn to_words(&self) -> (out: Vec<u32>)
        ensures
            out@ == self.words(),
    {
        let mut out: Vec<u32> = Vec::new();
        out.push(self.position[0]);
        out.push(self.position[1]);
        out.push(self.position[2]);
        out.push(0);
        out.push(self.color[0]);
        out.push(self.color[1]);
        out.push(self.color[2]);
        out.push(0);
        assert(out@ =~= self.words());
        out
    }

    /// The block as the bytes that are written to its buffer.
    pub fn to_bytes(&self) -> (out: Vec<u8>)
        ensures
            out@ == pack(self.words()),
            out@.len() == LIGHT_UNIFORM_SIZE,
    {
        let words = self.to_words();
        pack_words(words.as_slice())
    }

    /// Reads a block from the bytes of its buffer.
    pub fn from_bytes(bytes: &[u8]) -> (out: Option<Self>)
        ensures
            out == Self::decode(bytes@),
    {
        if bytes.len() != LIGHT_UNIFORM_SIZE {
            return None;
        }
        match unpack_words(bytes) {
            Some(words) => {
                let slice = words.as_slice();
                Some(
                    LightUniform {
                        position: [slice[0], slice[1], slice[2]],
                        color: [slice[4], slice[5], slice[6]],
                    },
                )
            },
            None => None,
        }
    }
}

/// Reading a light block back from its own words gives the block.
pub proof fn lemma_light_of_words(block: LightUniform)
    ensures
        block.words().len() == 8,
        LightUniform::of_words(block.words()) == block,
{
    let got = LightUniform::of_words(block.words());
    assert(got.position =~= block.position);
    assert(got.color =~= block.color);
}

/// Round trip of the light block: decoding the bytes of a block gives the
/// block back; the padding costs nothing.
pub proof fn lemma_light_round_trip(block: LightUniform)
    ensures
        LightUniform::decode(pack(block.words())) == Some(block),
{
    lemma_light_of_words(block);
    lemma_unpack_pack(block.words());
}

/// Where the fields of the light block lie in its bytes: the position in
/// bytes 0 to 11 and the colour in bytes 16 to 27, each followed by four
/// bytes of zero, so that both start on a sixteen-byte boundary.
pub proof fn lemma_light_layout(block: LightUniform)
    ensures
        pack(block.words()).len() == LIGHT_UNIFORM_SIZE,
        pack(block.words()).subrange(0, 12) == pack(block.position@),
        pack(block.words()).subrange(12, 16) == seq![0u8, 0u8, 0u8, 0u8],
        pack(block.words()).subrange(16, 28) == pack(block.color@),
        pack(block.words()).subrange(28, 32) == seq![0u8, 0u8, 0u8, 0u8],
{
    let words = block.words();
    lemma_pack_subrange(words, 0, 3);
    assert(words.subrange(0, 3) =~= block.position@);
    lemma_pack_subrange(words, 4, 7);
    assert(words.subrange(4, 7) =~= block.color@);
    lemma_pack_subrange(words, 3, 4);
    assert(words.subrange(3, 4) =~= seq![0u32]);
    lemma_pack_subrange(words, 7, 8);
    assert(words.subrange(7, 8) =~= seq![0u32]);
    assert(pack(seq![0u32]) =~= seq![0u8, 0u8, 0u8, 0u8]);
}

/// The orbit is linear in time: the angle turned in two spans, one after the
/// other, is the angle turned in their sum.
pub proof fn lemma_orbit_additive(first: nat, second: nat)
    ensures
        LightUniform::orbit_angle(first + second) == LightUniform::orbit_angle(first)
            + LightUniform::orbit_angle(second),
{
    let rate = ORBIT_DEGREES_PER_SECOND as nat;
    assert(rate * (first + second) == rate * first + rate * second) by (nonlinear_arith);
}

} // verus!
