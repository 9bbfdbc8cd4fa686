//! Vertex buffer layouts: how the vertex stage finds its attributes in a
//! buffer.

use vstd::prelude::*;

verus! {

/// The shape of one vertex attribute: two, three or four single-precision
/// components.
#[derive(Clone, Copy, Debug, PartialEq, Eq)]
pub enum VertexFormat {
    Float32x2,
    Float32x3,
    Float32x4,
}

impl VertexFormat {
    /// Number of 32-bit components.
    pub open spec fn components(self) -> nat {
        match self {
            VertexFormat::Float32x2 => 2,
            VertexFormat::Float32x3 => 3,
            VertexFormat::Float32x4 => 4,
        }
    }

    /// Size of an attribute of this format in bytes.
    pub open spec fn byte_size(self) -> nat {
        4 * self.components()
    }

    /// Size of an attribute of this format in bytes.
    pub fn size(&self) -> (bytes: u64)
        ensures
            bytes == self.byte_size(),
    {
        match self {
            VertexFormat::Float32x2 => 8,
            VertexFormat::Float32x3 => 12,
            VertexFormat::Float32x4 => 16,
        }
    }
}

/// Whether a buffer advances once per vertex or once per instance.
#[derive(Clone, Copy, Debug, PartialEq, Eq)]
pub enum VertexStepMode {
    Vertex,
    Instance,
}

/// One attribute inside a vertex buffer.
#[derive(Clone, Copy, Debug, PartialEq, Eq)]
pub struct VertexAttribute {
    pub format: VertexFormat,
    /// Byte offset from the start of the element.
    pub offset: u64,
    /// The slot under which the vertex stage reads the attribute.
    pub shader_location: u32,
}

impl VertexAttribute {
    /// The byte just past the attribute.
    pub open spec fn end(self) -> nat {
        self.offset as nat + self.format.byte_size()
    }
}

/// The layout of one vertex buffer.
#[derive(Clone, Debug, PartialEq, Eq)]
pub struct VertexBufferLayout {
    /// Bytes from one element to the next.
    pub array_stride: u64,
    pub step_mode: VertexStepMode,
    pub attributes: Vec<VertexAttribute>,
}

impl VertexBufferLayout {
    /// The attributes fill the element without gap or overlap: the first
    /// starts at byte zero, each next one where the one before ends, and the
    /// last ends at the stride.
    pub open spec fn tight(self) -> bool {
        let attributes = self.attributes@;
        &&& attributes.len() > 0
        &&& attributes[0].offset == 0
        &&& forall|i: int|
            0 < i < attributes.len() ==> (#[trigger] attributes[i]).offset == attributes[i
                - 1].end()
        &&& attributes[attributes.len() - 1].end() == self.array_stride
    }

    /// Whether some attribute is read under shader location `slot`.
    pub open spec fn uses_location(self, slot: u32) -> bool {
        exists|i: int|
            0 <= i < self.attributes@.len() && (#[trigger] self.attributes@[i]).shader_location
                == slot
    }

    /// No shader location is used by both layouts.
    pub open spec fn disjoint_locations(self, other: VertexBufferLayout) -> bool {
        forall|slot: u32| !(self.uses_location(slot) && other.uses_location(slot))
    }
}

} // verus!
