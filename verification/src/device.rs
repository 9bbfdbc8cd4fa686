//! Names for what lives on the device, and the plain instructions that
//! create and fill it.

use vstd::prelude::*;
use crate::pipeline::BindGroupKind;

verus! {

/// A buffer on the device.
#[derive(Clone, Copy, Debug, PartialEq, Eq)]
pub enum BufferId {
    /// The camera uniform.
    Camera,
    /// The light uniform.
    Light,
    /// The packed instances.
    Instances,
    /// The vertices of the mesh with this index.
    Vertices(usize),
    /// The indices of the mesh with this index.
    Indices(usize),
}

/// A bind group on the device.
#[derive(Clone, Copy, Debug, PartialEq, Eq)]
pub enum BindGroupId {
    Camera,
    Light,
    /// The material of the model with this index.
    Material(usize),
}

impl BindGroupId {
    /// The kind of layout the bind group was made for.
    pub open spec fn kind(self) -> BindGroupKind {
        match self {
            BindGroupId::Camera => BindGroupKind::Camera,
            BindGroupId::Light => BindGroupKind::Light,
            BindGroupId::Material(_) => BindGroupKind::Texture,
        }
    }
}

/// What a buffer is used for.
#[derive(Clone, Copy, Debug, PartialEq, Eq)]
pub enum BufferUsage {
    /// A uniform that is written again every frame.
    Uniform,
    Vertex,
    Index,
}

/// A buffer to create, with its first contents.
#[derive(Clone, Debug, PartialEq, Eq)]
pub struct BufferInit {
    pub target: BufferId,
    pub usage: BufferUsage,
    pub contents: Vec<u8>,
}

impl BufferInit {
    /// The buffer is `target`, used as `usage`, and starts with `bytes`.
    pub open spec fn holds(self, target: BufferId, usage: BufferUsage, bytes: Seq<u8>) -> bool {
        self.target == target && self.usage == usage && self.contents@ == bytes
    }
}

/// Bytes to write into a buffer.
#[derive(Clone, Debug, PartialEq, Eq)]
pub struct BufferWrite {
    pub target: BufferId,
    /// Where in the buffer the bytes go.
    pub offset: u64,
    pub data: Vec<u8>,
}

impl BufferWrite {
    /// The write puts `bytes` at the start of `target`.
    pub open spec fn fills(self, target: BufferId, bytes: Seq<u8>) -> bool {
        self.target == target && self.offset == 0 && self.data@ == bytes
    }
}

} // verus!
