//! The mesh data model: vertices, meshes, materials, and the assembly of a
//! model from the flat arrays a mesh file decodes to.

use vstd::prelude::*;
use crate::bytes::{pack, pack_words};
use crate::instance::InstanceRaw;
use crate::layout::{VertexAttribute, VertexBufferLayout, VertexFormat, VertexStepMode};

verus! {

/// Words in one vertex: three of position, two of texture coordinates, three
/// of normal.
pub const MODEL_VERTEX_WORDS: usize = 8;

/// Size of one vertex in bytes.
pub const MODEL_VERTEX_SIZE: usize = 32;

/// One vertex of a mesh.
#[derive(Clone, Copy, Debug, PartialEq, Eq)]
pub struct ModelVertex {
    pub position: [u32; 3],
    pub tex_coords: [u32; 2],
    pub normal: [u32; 3],
}

/// The words of a run of vertices, one vertex after the other.
pub open spec fn vertex_buffer_words(vertices: Seq<ModelVertex>) -> Seq<u32> {
    Seq::new(8 * vertices.len(), |i: int| vertices[i / 8].words()[i % 8])
}

impl ModelVertex {
    /// The words of the vertex: position, texture coordinates, normal.
    pub open spec fn words(self) -> Seq<u32> {
        seq![
            self.position[0],
            self.position[1],
            self.position[2],
            self.tex_coords[0],
            self.tex_coords[1],
            self.normal[0],
            self.normal[1],
            self.normal[2],
        ]
    }

    /// The layout of the three attributes of a vertex.
    pub open spec fn attributes() -> Seq<VertexAttribute> {
        seq![
            VertexAttribute { format: VertexFormat::Float32x3, offset: 0, shader_location: 0 },
            VertexAttribute { format: VertexFormat::Float32x2, offset: 12, shader_location: 1 },
            VertexAttribute { format: VertexFormat::Float32x3, offset: 20, shader_location: 2 },
        ]
    }

    /// How the vertex stage reads a buffer of vertices: one element per
    /// vertex, with position, texture coordinates and normal under locations
    /// 0, 1 and 2.
    pub fn desc() -> (layout: VertexBufferLayout)
        ensures
            layout.array_stride == MODEL_VERTEX_SIZE,
            layout.step_mode == VertexStepMode::Vertex,
            layout.attributes@ == Self::attributes(),
    {
        let mut attributes: Vec<VertexAttribute> = Vec::new();
        attributes.push(
            VertexAttribute { format: VertexFormat::Float32x3, offset: 0, shader_location: 0 },
        );
        attributes.push(
            VertexAttribute { format: VertexFormat::Float32x2, offset: 12, shader_location: 1 },
        );
        attributes.push(
            VertexAttribute { format: VertexFormat::Float32x3, offset: 20, shader_location: 2 },
        );
        assert(attributes@ =~= Self::attributes());
        VertexBufferLayout { array_stride: 32, step_mode: VertexStepMode::Vertex, attributes }
    }
}

/// The contents of a vertex buffer: the vertices one after the other, each
/// taking [`MODEL_VERTEX_SIZE`] bytes.
pub fn vertex_buffer_bytes(vertices: &[ModelVertex]) -> (out: Vec<u8>)
    ensures
        out@ == pack(vertex_buffer_words(vertices@)),
        out@.len() == MODEL_VERTEX_SIZE * vertices@.len(),
{
    let mut words: Vec<u32> = Vec::new();
    let mut i: usize = 0;
    while i < vertices.len()
        invariant
            i <= vertices@.len(),
            words@.len() == 8 * i,
            forall|j: int| 0 <= j < 8 * i ==> words@[j] == vertex_buffer_words(vertices@)[j],
        decreases vertices@.len() - i,
    {
        let v = &vertices[i];
        let ghost before = words@;
        words.push(v.position[0]);
        words.push(v.position[1]);
        words.push(v.position[2]);
        words.push(v.tex_coords[0]);
        words.push(v.tex_coords[1]);
        words.push(v.normal[0]);
        words.push(v.normal[1]);
        words.push(v.normal[2]);
        proof {
            assert forall|j: int| 0 <= j < 8 * (i + 1) implies words@[j] == vertex_buffer_words(
                vertices@,
            )[j] by {
                if j < 8 * i {
                    assert(words@[j] == before[j]);
                } else {
                    assert(j / 8 == i as int);
                    assert(words@[j] == vertices@[i as int].words()[j - 8 * i]);
                }
            }
        }
        i = i + 1;
    }
    assert(words@ =~= vertex_buffer_words(vertices@));
    pack_words(words.as_slice())
}

/// The contents of an index buffer: every index as one word.
pub fn index_buffer_bytes(indices: &[u32]) -> (out: Vec<u8>)
    ensures
        out@ == pack(indices@),
{
    pack_words(indices)
}

/// The attributes of a vertex fill its thirty-two bytes without gap or
/// overlap.
pub proof fn lemma_vertex_layout_tight(layout: VertexBufferLayout)
    requires
        layout.array_stride == MODEL_VERTEX_SIZE,
        layout.attributes@ == ModelVertex::attributes(),
    ensures
        layout.tight(),
{
}

/// The per-vertex and the per-instance attributes never share a shader
/// location, so both buffers can feed one pipeline.
pub proof fn lemma_vertex_and_instance_locations_disjoint(
    vertex: VertexBufferLayout,
    instance: VertexBufferLayout,
)
    requires
        vertex.attributes@ == ModelVertex::attributes(),
        instance.attributes@ == InstanceRaw::attributes(),
    ensures
        vertex.disjoint_locations(instance),
{
    assert forall|slot: u32| !(vertex.uses_location(slot) && instance.uses_location(slot)) by {
        if vertex.uses_location(slot) && instance.uses_location(slot) {
            let i = choose|i: int|
                0 <= i < vertex.attributes@.len() && (
                #[trigger] vertex.attributes@[i]).shader_location == slot;
            let j = choose|j: int|
                0 <= j < instance.attributes@.len() && (
                #[trigger] instance.attributes@[j]).shader_location == slot;
            assert(vertex.attributes@[i].shader_location <= 2);
            assert(instance.attributes@[j].shader_location >= 5);
        }
    }
}

/// One mesh as a mesh file decodes to it: flat arrays of coordinates, three
/// per position and normal and two per texture coordinate, a list of
/// indices, and the material the file names for it, if any.
#[derive(Clone, Debug, PartialEq, Eq)]
pub struct RawMesh {
    pub positions: Vec<u32>,
    pub texcoords: Vec<u32>,
    pub normals: Vec<u32>,
    pub indices: Vec<u32>,
    pub material_id: Option<usize>,
}

impl RawMesh {
    /// Number of vertices: one per three position coordinates.
    pub open spec fn vertex_count(self) -> int {
        self.positions@.len() as int / 3
    }

    /// Vertex `i`, gathered from the three flat arrays.
    pub open spec fn vertex(self, i: int) -> ModelVertex {
        ModelVertex {
            position: [
                self.positions@[3 * i],
                self.positions@[3 * i + 1],
                self.positions@[3 * i + 2],
            ],
            tex_coords: [self.texcoords@[2 * i], self.texcoords@[2 * i + 1]],
            normal: [self.normals@[3 * i], self.normals@[3 * i + 1], self.normals@[3 * i + 2]],
        }
    }

    /// All vertices in order.
    pub open spec fn vertices(self) -> Seq<ModelVertex> {
        Seq::new(self.vertex_count() as nat, |i: int| self.vertex(i))
    }

    /// The material the mesh is drawn with: the one the file names, or the
    /// first.
    pub open spec fn material(self) -> usize {
        match self.material_id {
            Some(id) => id,
            None => 0,
        }
    }

    /// What is wrong with the mesh when it is mesh number `mesh` of a model
    /// with `materials` materials, if anything. The checks are made in the
    /// order in which they are listed in [`AssetError`].
    pub open spec fn fault(self, mesh: usize, materials: int) -> Option<AssetError> {
        if self.texcoords@.len() < 2 * self.vertex_count() {
            Some(AssetError::MissingTexcoords { mesh })
        } else if self.normals@.len() < 3 * self.vertex_count() {
            Some(AssetError::MissingNormals { mesh })
        } else if self.indices@.len() > u32::MAX {
            Some(AssetError::TooManyIndices { mesh })
        } else if self.material() >= materials {
            Some(AssetError::UnknownMaterial { mesh })
        } else {
            None
        }
    }
}

/// Why a model could not be assembled. Each names the first mesh at fault.
#[derive(Clone, Copy, Debug, PartialEq, Eq)]
pub enum AssetError {
    /// The mesh has fewer than two texture coordinates per vertex.
    MissingTexcoords { mesh: usize },
    /// The mesh has fewer than three normal coordinates per vertex.
    MissingNormals { mesh: usize },
    /// The mesh has more indices than a draw call can count.
    TooManyIndices { mesh: usize },
    /// The material of the mesh is not among the model's materials.
    UnknownMaterial { mesh: usize },
}

/// One drawable batch of a model.
#[derive(Clone, Debug, PartialEq, Eq)]
pub struct Mesh {
    pub name: String,
    pub vertices: Vec<ModelVertex>,
    pub indices: Vec<u32>,
    /// Number of indices to draw.
    pub num_elements: u32,
    /// Index of the mesh's material among the model's materials.
    pub material: usize,
}

impl Mesh {
    /// The mesh is what `raw` decodes to under the name `name`.
    pub open spec fn built_from(self, name: Seq<char>, raw: RawMesh) -> bool {
        &&& self.name@ == name
        &&& self.vertices@ == raw.vertices()
        &&& self.indices@ == raw.indices@
        &&& self.num_elements == raw.indices@.len()
        &&& self.material == raw.material()
    }
}

/// The appearance of a surface: the files of its colour map and of its
/// normal map.
#[derive(Clone, Debug, PartialEq, Eq)]
pub struct Material {
    pub name: String,
    pub diffuse_texture: String,
    pub normal_texture: String,
}

/// A loaded model: its meshes and the materials they refer to.
#[derive(Debug, PartialEq, Eq)]
pub struct Model {
    meshes: Vec<Mesh>,
    materials: Vec<Material>,
}

/// What a model holds, as sequences.
pub struct ModelView {
    pub meshes: Seq<Mesh>,
    pub materials: Seq<Material>,
}

impl ModelView {
    /// Every mesh counts its own indices and refers to a material of the
    /// model.
    pub open spec fn well_formed(self) -> bool {
        forall|i: int|
            0 <= i < self.meshes.len() ==> {
                &&& (#[trigger] self.meshes[i]).num_elements == self.meshes[i].indices@.len()
                &&& self.meshes[i].material < self.materials.len()
            }
    }
}

impl View for Model {
    type V = ModelView;

    closed spec fn view(&self) -> ModelView {
        ModelView { meshes: self.meshes@, materials: self.materials@ }
    }
}

impl Model {
    #[verifier::type_invariant]
    closed spec fn sound(&self) -> bool {
        self@.well_formed()
    }

    /// The meshes in drawing order.
    pub fn meshes(&self) -> (all: &Vec<Mesh>)
        ensures
            all@ == self@.meshes,
            self@.well_formed(),
    {
        proof {
            use_type_invariant(self);
        }
        &self.meshes
    }

    /// The materials the meshes refer to.
    pub fn materials(&self) -> (all: &Vec<Material>)
        ensures
            all@ == self@.materials,
            self@.well_formed(),
    {
        proof {
            use_type_invariant(self);
        }
        &self.materials
    }
}

/// Gathers the vertices of a mesh from its flat arrays.
fn gather_vertices(raw: &RawMesh) -> (out: Vec<ModelVertex>)
    requires
        raw.texcoords@.len() >= 2 * raw.vertex_count(),
        raw.normals@.len() >= 3 * raw.vertex_count(),
    ensures
        out@ == raw.vertices(),
{
    let count: usize = raw.positions.len() / 3;
    let mut out: Vec<ModelVertex> = Vec::new();
    let mut i: usize = 0;
    while i < count
        invariant
            count == raw.vertex_count(),
            3 * count <= raw.positions@.len() <= usize::MAX,
            raw.texcoords@.len() >= 2 * count,
            raw.normals@.len() >= 3 * count,
            i <= count,
            out@.len() == i,
            forall|k: int| 0 <= k < i ==> out@[k] == raw.vertex(k),
        decreases count - i,
    {
        let p: usize = 3 * i;
        let t: usize = 2 * i;
        let vertex = ModelVertex {
            position: [raw.positions[p], raw.positions[p + 1], raw.positions[p + 2]],
            tex_coords: [raw.texcoords[t], raw.texcoords[t + 1]],
            normal: [raw.normals[p], raw.normals[p + 1], raw.normals[p + 2]],
        };
        out.push(vertex);
        i = i + 1;
    }
    assert(out@ =~= raw.vertices());
    out
}

/// Mesh `i` is the first of `meshes` that is at fault when the model has
/// `materials` materials, and `error` is what is wrong with it.
pub open spec fn first_fault(
    meshes: Seq<RawMesh>,
    materials: int,
    i: int,
    error: AssetError,
) -> bool {
    &&& 0 <= i < meshes.len()
    &&& meshes[i].fault(i as usize, materials) == Some(error)
    &&& forall|j: int| 0 <= j < i ==> (#[trigger] meshes[j]).fault(j as usize, materials) is None
}

/// None of `meshes` is at fault when the model has `materials` materials.
pub open spec fn faultless(meshes: Seq<RawMesh>, materials: int) -> bool {
    forall|i: int|
        0 <= i < meshes.len() ==> (#[trigger] meshes[i]).fault(i as usize, materials) is None
}

/// Assembles a model named `file_name` from decoded meshes and materials.
///
/// Every mesh must bring two texture coordinates and three normal
/// coordinates for each of its vertices, no more indices than a draw call
/// can count, and a material that is among `materials`; a mesh that names no
/// material gets the first. The first mesh that fails one of these is
/// reported, and nothing is assembled.
pub fn load_model(file_name: &str, meshes: &[RawMesh], materials: Vec<Material>) -> (out: Result<
    Model,
    AssetError,
>)
    ensures
        out matches Err(error) ==> exists|i: int| #[trigger]
            first_fault(meshes@, materials@.len() as int, i, error),
        out matches Ok(model) ==> {
            &&& faultless(meshes@, materials@.len() as int)
            &&& model@.well_formed()
            &&& model@.materials == materials@
            &&& model@.meshes.len() == meshes@.len()
            &&& forall|i: int|
                0 <= i < meshes@.len() ==> (#[trigger] model@.meshes[i]).built_from(
                    file_name@,
                    meshes@[i],
                )
        },
{
    let ghost n = materials@.len() as int;
    let mut built: Vec<Mesh> = Vec::new();
    let mut i: usize = 0;
    while i < meshes.len()
        invariant
            i <= meshes@.len(),
            n == materials@.len(),
            built@.len() == i,
            forall|j: int| 0 <= j < i ==> (#[trigger] meshes@[j]).fault(j as usize, n) is None,
            forall|j: int|
                0 <= j < i ==> (#[trigger] built@[j]).built_from(file_name@, meshes@[j]),
            forall|j: int|
                0 <= j < i ==> {
                    &&& (#[trigger] built@[j]).num_elements == built@[j].indices@.len()
                    &&& built@[j].material < materials@.len()
                },
        decreases meshes@.len() - i,
    {
        let raw = &meshes[i];
        let count: usize = raw.positions.len() / 3;
        if raw.texcoords.len() / 2 < count {
            assert(first_fault(meshes@, n, i as int, AssetError::MissingTexcoords { mesh: i }));
            return Err(AssetError::MissingTexcoords { mesh: i });
        }
        if raw.normals.len() / 3 < count {
            assert(first_fault(meshes@, n, i as int, AssetError::MissingNormals { mesh: i }));
            return Err(AssetError::MissingNormals { mesh: i });
        }
        if raw.indices.len() > 0xFFFF_FFFF {
            assert(first_fault(meshes@, n, i as int, AssetError::TooManyIndices { mesh: i }));
            return Err(AssetError::TooManyIndices { mesh: i });
        }
        let material: usize = match raw.material_id {
            Some(id) => id,
            None => 0,
        };
        if material >= materials.len() {
            assert(first_fault(meshes@, n, i as int, AssetError::UnknownMaterial { mesh: i }));
            return Err(AssetError::UnknownMaterial { mesh: i });
        }
        let mut indices: Vec<u32> = Vec::new();
        indices.extend_from_slice(raw.indices.as_slice());
        let mesh = Mesh {
            name: file_name.to_owned(),
            vertices: gather_vertices(raw),
            indices,
            num_elements: raw.indices.len() as u32,
            material,
        };
        assert(mesh.indices@ =~= raw.indices@);
        assert(raw.fault(i, n) is None);
        assert(mesh.built_from(file_name@, *raw));
        built.push(mesh);
        i = i + 1;
    }
    Ok(Model { meshes: built, materials })
}

} // verus!
