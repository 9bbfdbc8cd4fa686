//! The instance table: where each copy of the mesh stands, and the packed
//! per-instance attributes the vertex stage reads.

use vstd::prelude::*;
use crate::bytes::{lemma_pack_subrange, pack, pack_words};
use crate::layout::{VertexAttribute, VertexBufferLayout, VertexFormat, VertexStepMode};
use crate::words::{matrix3_words, matrix4_words, push_matrix3, push_matrix4};

verus! {

/// Words in one packed instance: a 4x4 model matrix and a 3x3 normal matrix.
pub const INSTANCE_RAW_WORDS: usize = 25;

/// Size of one packed instance in bytes.
pub const INSTANCE_RAW_SIZE: usize = 100;

/// The first shader location of the per-instance attributes. The locations
/// below it belong to the per-vertex attributes of a mesh.
pub const FIRST_INSTANCE_LOCATION: u32 = 5;

/// A point in world space, each coordinate counted in halves of a unit.
///
/// Halves keep the centre of a grid exact when a row has an odd number of
/// cells.
#[derive(Clone, Copy, Debug, PartialEq, Eq)]
pub struct Position {
    pub x: i64,
    pub y: i64,
    pub z: i64,
}

/// A rotation by a whole number of degrees about an axis.
#[derive(Clone, Copy, Debug, PartialEq, Eq)]
pub struct Rotation {
    pub axis: [i32; 3],
    pub degrees: i32,
}

/// One placed copy of the mesh.
#[derive(Clone, Copy, Debug, PartialEq, Eq)]
pub struct Instance {
    pub position: Position,
    pub rotation: Rotation,
}

/// The coordinate, in halves of a unit, of cell `i` in a row of `per_row`
/// cells that are `spacing` units apart and centred on the origin: the
/// double of `spacing * (i - per_row / 2)`.
pub open spec fn grid_coordinate(per_row: int, spacing: int, i: int) -> int {
    spacing * (2 * i - per_row)
}

/// The rotation every instance of the grid has: half a turn about the
/// vertical axis.
pub open spec fn grid_rotation() -> Rotation {
    Rotation { axis: [0i32, 1i32, 0i32], degrees: 180 }
}

/// The instance that stands in cell (`x`, `z`) of the grid.
pub open spec fn grid_instance(per_row: int, spacing: int, x: int, z: int) -> Instance {
    Instance {
        position: Position {
            x: grid_coordinate(per_row, spacing, x) as i64,
            y: 0,
            z: grid_coordinate(per_row, spacing, z) as i64,
        },
        rotation: grid_rotation(),
    }
}

/// `table` is the square grid of `per_row` rows of `per_row` instances,
/// `spacing` units apart: rows follow each other along z, and inside a row
/// the instances follow each other along x.
pub open spec fn is_grid(table: Seq<Instance>, per_row: int, spacing: int) -> bool {
    &&& table.len() == per_row * per_row
    &&& forall|x: int, z: int|
        0 <= x < per_row && 0 <= z < per_row ==> table[z * per_row + x] == #[trigger] grid_instance(
            per_row,
            spacing,
            x,
            z,
        )
}

/// The instances of a scene, in the order in which they are drawn.
pub struct InstanceTable {
    instances: Vec<Instance>,
}

impl View for InstanceTable {
    type V = Seq<Instance>;

    closed spec fn view(&self) -> Seq<Instance> {
        self.instances@
    }
}

impl InstanceTable {
    /// A table holds no more instances than a draw call can count.
    #[verifier::type_invariant]
    closed spec fn fits_draw_range(&self) -> bool {
        self.instances@.len() <= u32::MAX
    }

    /// A square grid of `per_row` rows of `per_row` instances, `spacing`
    /// units apart and centred on the origin. Rows follow each other along
    /// z; inside a row the instances follow each other along x.
    pub fn grid(per_row: u32, spacing: i32) -> (table: Self)
        requires
            per_row as int * per_row as int <= u32::MAX,
        ensures
            is_grid(table@, per_row as int, spacing as int),
    {
        let mut instances: Vec<Instance> = Vec::new();
        let n: i64 = per_row as i64;
        let s: i64 = spacing as i64;
        let mut z: u32 = 0;
        while z < per_row
            invariant
                z <= per_row,
                n == per_row,
                s == spacing,
                per_row as int * per_row as int <= u32::MAX,
                instances@.len() == z as int * per_row as int,
                forall|x: int, r: int|
                    0 <= x < per_row && 0 <= r < z ==> instances@[r * per_row as int + x]
                        == #[trigger] grid_instance(per_row as int, spacing as int, x, r),
            decreases per_row - z,
        {
            let ghost row_start = instances@;
            let mut x: u32 = 0;
            while x < per_row
                invariant
                    x <= per_row,
                    z < per_row,
                    n == per_row,
                    s == spacing,
                    per_row as int * per_row as int <= u32::MAX,
                    row_start.len() == z as int * per_row as int,
                    instances@.len() == row_start.len() + x,
                    forall|i: int| 0 <= i < row_start.len() ==> instances@[i] == row_start[i],
                    forall|c: int|
                        0 <= c < x ==> instances@[row_start.len() + c] == #[trigger] grid_instance(
                            per_row as int,
                            spacing as int,
                            c,
                            z as int,
                        ),
                decreases per_row - x,
            {
                assert(per_row <= 0xFFFF) by (nonlinear_arith)
                    requires
                        per_row as int * per_row as int <= u32::MAX,
                {
                }
                let dx: i64 = 2 * (x as i64) - n;
                let dz: i64 = 2 * (z as i64) - n;
                assert(-0x8000_0000_0000 <= s * dx <= 0x8000_0000_0000 && -0x8000_0000_0000 <= s
                    * dz <= 0x8000_0000_0000) by (nonlinear_arith)
                    requires
                        -0x8000_0000 <= s <= 0x8000_0000,
                        -0x1_0000 <= dx <= 0x1_0000,
                        -0x1_0000 <= dz <= 0x1_0000,
                {
                }
                let instance = Instance {
                    position: Position { x: s * dx, y: 0, z: s * dz },
                    rotation: Rotation { axis: [0, 1, 0], degrees: 180 },
                };
                assert(instance.rotation.axis =~= grid_rotation().axis);
                assert(instance == grid_instance(
                    per_row as int,
                    spacing as int,
                    x as int,
                    z as int,
                ));
                instances.push(instance);
                x = x + 1;
            }
            assert((z + 1) * per_row == z * per_row + per_row) by (nonlinear_arith);
            assert forall|c: int, r: int| 0 <= c < per_row && 0 <= r < z + 1 implies instances@[r
                * per_row as int + c] == #[trigger] grid_instance(
                per_row as int,
                spacing as int,
                c,
                r,
            ) by {
                if r < z {
                    assert(r * per_row + c < z * per_row) by (nonlinear_arith)
                        requires
                            0 <= c < per_row,
                            0 <= r < z,
                    {
                    }
                    assert(row_start[r * per_row as int + c] == grid_instance(
                        per_row as int,
                        spacing as int,
                        c,
                        r,
                    ));
                }
            }
            z = z + 1;
        }
        InstanceTable { instances }
    }

    /// Number of instances, as a draw call counts them.
    pub fn count(&self) -> (n: u32)
        ensures
            n == self@.len(),
    {
        proof {
            use_type_invariant(self);
        }
        self.instances.len() as u32
    }

    /// The instances in drawing order.
    pub fn instances(&self) -> (all: &Vec<Instance>)
        ensures
            all@ == self@,
    {
        &self.instances
    }
}

/// The packed attributes of one instance: its model matrix and the matrix
/// that carries its normals, both as columns.
#[derive(Clone, Copy, Debug, PartialEq, Eq)]
pub struct InstanceRaw {
    pub model: [[u32; 4]; 4],
    pub normal: [[u32; 3]; 3],
}

/// The words of a run of packed instances, one instance after the other.
pub open spec fn instance_buffer_words(raws: Seq<InstanceRaw>) -> Seq<u32> {
    Seq::new(25 * raws.len(), |i: int| raws[i / 25].words()[i % 25])
}

impl InstanceRaw {
    /// The words of the packed instance: the model matrix, then the normal
    /// matrix.
    pub open spec fn words(self) -> Seq<u32> {
        matrix4_words(self.model) + matrix3_words(self.normal)
    }

    /// The layout of the seven attributes of a packed instance.
    pub open spec fn attributes() -> Seq<VertexAttribute> {
        seq![
            VertexAttribute { format: VertexFormat::Float32x4, offset: 0, shader_location: 5 },
            VertexAttribute { format: VertexFormat::Float32x4, offset: 16, shader_location: 6 },
            VertexAttribute { format: VertexFormat::Float32x4, offset: 32, shader_location: 7 },
            VertexAttribute { format: VertexFormat::Float32x4, offset: 48, shader_location: 8 },
            VertexAttribute { format: VertexFormat::Float32x3, offset: 64, shader_location: 9 },
            VertexAttribute { format: VertexFormat::Float32x3, offset: 76, shader_location: 10 },
            VertexAttribute { format: VertexFormat::Float32x3, offset: 88, shader_location: 11 },
        ]
    }

    /// How the vertex stage reads a buffer of packed instances: one element
    /// per instance, the four columns of the model matrix under locations 5
    /// to 8 and the three columns of the normal matrix under 9 to 11.
    pub fn desc() -> (layout: VertexBufferLayout)
        ensures
            layout.array_stride == INSTANCE_RAW_SIZE,
            layout.step_mode == VertexStepMode::Instance,
            layout.attributes@ == Self::attributes(),
    {
        let mut attributes: Vec<VertexAttribute> = Vec::new();
        attributes.push(
            VertexAttribute { format: VertexFormat::Float32x4, offset: 0, shader_location: 5 },
        );
        attributes.push(
            VertexAttribute { format: VertexFormat::Float32x4, offset: 16, shader_location: 6 },
        );
        attributes.push(
            VertexAttribute { format: VertexFormat::Float32x4, offset: 32, shader_location: 7 },
        );
        attributes.push(
            VertexAttribute { format: VertexFormat::Float32x4, offset: 48, shader_location: 8 },
        );
        attributes.push(
            VertexAttribute { format: VertexFormat::Float32x3, offset: 64, shader_location: 9 },
        );
        attributes.push(
            VertexAttribute { format: VertexFormat::Float32x3, offset: 76, shader_location: 10 },
        );
        attributes.push(
            VertexAttribute { format: VertexFormat::Float32x3, offset: 88, shader_location: 11 },
        );
        assert(attributes@ =~= Self::attributes());
        VertexBufferLayout { array_stride: 100, step_mode: VertexStepMode::Instance, attributes }
    }

    /// The packed instance as words.
    pub fn to_words(&self) -> (out: Vec<u32>)
        ensures
            out@ == self.words(),
    {
        let mut out: Vec<u32> = Vec::new();
        push_matrix4(&mut out, &self.model);
        push_matrix3(&mut out, &self.normal);
        assert(out@ =~= self.words());
        out
    }
}

/// The contents of the instance buffer: the packed instances one after the
/// other, each taking [`INSTANCE_RAW_SIZE`] bytes.
pub fn instance_buffer_bytes(raws: &[InstanceRaw]) -> (out: Vec<u8>)
    ensures
        out@ == pack(instance_buffer_words(raws@)),
        out@.len() == INSTANCE_RAW_SIZE * raws@.len(),
{
    let mut words: Vec<u32> = Vec::new();
    let mut i: usize = 0;
    while i < raws.len()
        invariant
            i <= raws@.len(),
            words@ == instance_buffer_words(raws@.take(i as int)),
        decreases raws@.len() - i,
    {
        let one = raws[i].to_words();
        let ghost before = words@;
        words.extend_from_slice(one.as_slice());
        proof {
            let next = raws@.take(i as int + 1);
            assert forall|j: int| 0 <= j < words@.len() implies words@[j] == instance_buffer_words(
                next,
            )[j] by {
                if j < 25 * i {
                    assert(before[j] == instance_buffer_words(raws@.take(i as int))[j]);
                } else {
                    assert(j / 25 == i as int);
                    assert(words@[j] == one@[j - 25 * i]);
                }
            }
            assert(words@ =~= instance_buffer_words(next));
        }
        i = i + 1;
    }
    assert(raws@.take(i as int) =~= raws@);
    pack_words(words.as_slice())
}

/// The instance buffer holds exactly as many elements as there are packed
/// instances, so a draw over all instances reads the whole buffer and no
/// more.
pub proof fn lemma_instance_buffer_len(raws: Seq<InstanceRaw>)
    ensures
        pack(instance_buffer_words(raws)).len() == INSTANCE_RAW_SIZE * raws.len(),
{
}

/// The attributes of a packed instance fill its hundred bytes without gap or
/// overlap.
pub proof fn lemma_instance_layout_tight(layout: VertexBufferLayout)
    requires
        layout.array_stride == INSTANCE_RAW_SIZE,
        layout.attributes@ == InstanceRaw::attributes(),
    ensures
        layout.tight(),
{
}

/// Every per-instance attribute is read under a location from
/// [`FIRST_INSTANCE_LOCATION`] on.
pub proof fn lemma_instance_locations(i: int)
    requires
        0 <= i < InstanceRaw::attributes().len(),
    ensures
        InstanceRaw::attributes()[i].shader_location == FIRST_INSTANCE_LOCATION + i,
{
}

/// What each attribute addresses: in the bytes of a packed instance,
/// attribute `i` covers the bytes of one matrix column, for the first four
/// attributes a column of the model matrix and for the last three a column of
/// the normal matrix.
pub proof fn lemma_instance_attribute_bytes(raw: InstanceRaw, i: int)
    requires
        0 <= i < 7,
    ensures
        pack(raw.words()).subrange(
            InstanceRaw::attributes()[i].offset as int,
            InstanceRaw::attributes()[i].end() as int,
        ) == pack(
            if i < 4 {
                raw.model[i]@
            } else {
                raw.normal[i - 4]@
            },
        ),
{
    let words = raw.words();
    if i < 4 {
        lemma_pack_subrange(words, 4 * i, 4 * i + 4);
        assert forall|r: int| 0 <= r < 4 implies words[4 * i + r] == raw.model[i][r] by {
            assert((4 * i + r) / 4 == i && (4 * i + r) % 4 == r);
        }
        assert(words.subrange(4 * i, 4 * i + 4) =~= raw.model[i]@);
    } else {
        let c = i - 4;
        lemma_pack_subrange(words, 16 + 3 * c, 16 + 3 * c + 3);
        assert forall|r: int| 0 <= r < 3 implies words[16 + 3 * c + r] == raw.normal[c][r] by {
            assert(words[16 + 3 * c + r] == matrix3_words(raw.normal)[3 * c + r]);
            assert((3 * c + r) / 3 == c && (3 * c + r) % 3 == r);
        }
        assert(words.subrange(16 + 3 * c, 16 + 3 * c + 3) =~= raw.normal[c]@);
    }
}

} // verus!
