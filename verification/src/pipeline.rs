//! Descriptions of the bind groups and of the two render pipelines: the one
//! that draws the lit objects and the one that draws the light itself.
//!
//! Nothing here touches a device. Each function says what is to be built;
//! the caller hands the description to the graphics API.

use vstd::prelude::*;
use crate::geometry::{
    lemma_vertex_and_instance_locations_disjoint, lemma_vertex_layout_tight, ModelVertex,
    MODEL_VERTEX_SIZE,
};
use crate::instance::{lemma_instance_layout_tight, InstanceRaw, INSTANCE_RAW_SIZE};
use crate::layout::{VertexBufferLayout, VertexStepMode};

verus! {

/// The shader stages that may read a binding.
#[derive(Clone, Copy, Debug, PartialEq, Eq)]
pub struct ShaderStages {
    pub vertex: bool,
    pub fragment: bool,
}

/// What a binding holds.
#[derive(Clone, Copy, Debug, PartialEq, Eq)]
pub enum BindingType {
    /// A uniform buffer.
    Buffer { has_dynamic_offset: bool, min_binding_size: Option<u64> },
    /// A two-dimensional texture sampled as floating point.
    Texture { filterable: bool, multisampled: bool },
    /// A sampler.
    Sampler { filtering: bool },
}

/// One slot of a bind group layout, for a single resource.
#[derive(Clone, Copy, Debug, PartialEq, Eq)]
pub struct BindGroupLayoutEntry {
    pub binding: u32,
    pub visibility: ShaderStages,
    pub ty: BindingType,
}

/// The three bind groups a pipeline can be given.
#[derive(Clone, Copy, Debug, PartialEq, Eq)]
pub enum BindGroupKind {
    /// The colour map and the normal map of a material, each with its
    /// sampler.
    Texture,
    /// The camera uniform.
    Camera,
    /// The light uniform.
    Light,
}

/// A texture of a material.
#[derive(Clone, Copy, Debug, PartialEq, Eq)]
pub enum TextureSlot {
    Diffuse,
    Normal,
}

/// A uniform buffer of the scene.
#[derive(Clone, Copy, Debug, PartialEq, Eq)]
pub enum UniformSlot {
    Camera,
    Light,
}

/// The resource bound to one slot of a bind group.
#[derive(Clone, Copy, Debug, PartialEq, Eq)]
pub enum BindingResource {
    /// A uniform buffer, whole.
    Buffer(UniformSlot),
    TextureView(TextureSlot),
    Sampler(TextureSlot),
}

/// One slot of a bind group.
#[derive(Clone, Copy, Debug, PartialEq, Eq)]
pub struct BindGroupEntry {
    pub binding: u32,
    pub resource: BindingResource,
}

impl BindingResource {
    /// Whether the resource may be bound where the layout asks for `ty`.
    pub open spec fn suits(self, ty: BindingType) -> bool {
        match self {
            BindingResource::Buffer(_) => ty is Buffer,
            BindingResource::TextureView(_) => ty is Texture,
            BindingResource::Sampler(_) => ty is Sampler,
        }
    }
}

impl BindGroupLayoutEntry {
    /// A uniform buffer at a fixed offset that both stages read, at binding
    /// zero.
    pub open spec fn uniform() -> BindGroupLayoutEntry {
        BindGroupLayoutEntry {
            binding: 0,
            visibility: ShaderStages { vertex: true, fragment: true },
            ty: BindingType::Buffer { has_dynamic_offset: false, min_binding_size: None },
        }
    }

    /// A filterable texture that the fragment stage reads, at `binding`.
    pub open spec fn texture(binding: u32) -> BindGroupLayoutEntry {
        BindGroupLayoutEntry {
            binding,
            visibility: ShaderStages { vertex: false, fragment: true },
            ty: BindingType::Texture { filterable: true, multisampled: false },
        }
    }

    /// A filtering sampler that the fragment stage reads, at `binding`.
    pub open spec fn sampler(binding: u32) -> BindGroupLayoutEntry {
        BindGroupLayoutEntry {
            binding,
            visibility: ShaderStages { vertex: false, fragment: true },
            ty: BindingType::Sampler { filtering: true },
        }
    }

    fn new_uniform() -> (entry: Self)
        ensures
            entry == Self::uniform(),
    {
        BindGroupLayoutEntry {
            binding: 0,
            visibility: ShaderStages { vertex: true, fragment: true },
            ty: BindingType::Buffer { has_dynamic_offset: false, min_binding_size: None },
        }
    }

    fn new_texture(binding: u32) -> (entry: Self)
        ensures
            entry == Self::texture(binding),
    {
        BindGroupLayoutEntry {
            binding,
            visibility: ShaderStages { vertex: false, fragment: true },
            ty: BindingType::Texture { filterable: true, multisampled: false },
        }
    }

    fn new_sampler(binding: u32) -> (entry: Self)
        ensures
            entry == Self::sampler(binding),
    {
        BindGroupLayoutEntry {
            binding,
            visibility: ShaderStages { vertex: false, fragment: true },
            ty: BindingType::Sampler { filtering: true },
        }
    }
}

impl BindGroupKind {
    /// The slots of a bind group of this kind: for a material the colour
    /// map, its sampler, the normal map and its sampler; for camera and
    /// light one uniform buffer.
    pub open spec fn layout(self) -> Seq<BindGroupLayoutEntry> {
        match self {
            BindGroupKind::Texture => seq![
                BindGroupLayoutEntry::texture(0),
                BindGroupLayoutEntry::sampler(1),
                BindGroupLayoutEntry::texture(2),
                BindGroupLayoutEntry::sampler(3),
            ],
            BindGroupKind::Camera => seq![BindGroupLayoutEntry::uniform()],
            BindGroupKind::Light => seq![BindGroupLayoutEntry::uniform()],
        }
    }

    /// What is bound in a bind group of this kind, slot by slot.
    pub open spec fn bindings(self) -> Seq<BindGroupEntry> {
        match self {
            BindGroupKind::Texture => {
                let diffuse = TextureSlot::Diffuse;
                let normal = TextureSlot::Normal;
                seq![
                    BindGroupEntry { binding: 0, resource: BindingResource::TextureView(diffuse) },
                    BindGroupEntry { binding: 1, resource: BindingResource::Sampler(diffuse) },
                    BindGroupEntry { binding: 2, resource: BindingResource::TextureView(normal) },
                    BindGroupEntry { binding: 3, resource: BindingResource::Sampler(normal) },
                ]
            },
            BindGroupKind::Camera => {
                let camera = UniformSlot::Camera;
                seq![BindGroupEntry { binding: 0, resource: BindingResource::Buffer(camera) }]
            },
            BindGroupKind::Light => {
                let light = UniformSlot::Light;
                seq![BindGroupEntry { binding: 0, resource: BindingResource::Buffer(light) }]
            },
        }
    }

    /// The layout of a bind group of this kind.
    pub fn layout_entries(&self) -> (entries: Vec<BindGroupLayoutEntry>)
        ensures
            entries@ == self.layout(),
    {
        let mut entries: Vec<BindGroupLayoutEntry> = Vec::new();
        match self {
            BindGroupKind::Texture => {
                entries.push(BindGroupLayoutEntry::new_texture(0));
                entries.push(BindGroupLayoutEntry::new_sampler(1));
                entries.push(BindGroupLayoutEntry::new_texture(2));
                entries.push(BindGroupLayoutEntry::new_sampler(3));
            },
            BindGroupKind::Camera => {
                entries.push(BindGroupLayoutEntry::new_uniform());
            },
            BindGroupKind::Light => {
                entries.push(BindGroupLayoutEntry::new_uniform());
            },
        }
        assert(entries@ =~= self.layout());
        entries
    }

    /// The resources of a bind group of this kind, slot by slot.
    pub fn entries(&self) -> (entries: Vec<BindGroupEntry>)
        ensures
            entries@ == self.bindings(),
    {
        let mut entries: Vec<BindGroupEntry> = Vec::new();
        match self {
            BindGroupKind::Texture => {
                let diffuse = TextureSlot::Diffuse;
                let normal = TextureSlot::Normal;
                entries.push(
                    BindGroupEntry { binding: 0, resource: BindingResource::TextureView(diffuse) },
                );
                entries.push(
                    BindGroupEntry { binding: 1, resource: BindingResource::Sampler(diffuse) },
                );
                entries.push(
                    BindGroupEntry { binding: 2, resource: BindingResource::TextureView(normal) },
                );
                entries.push(
                    BindGroupEntry { binding: 3, resource: BindingResource::Sampler(normal) },
                );
            },
            BindGroupKind::Camera => {
                let camera = UniformSlot::Camera;
                entries.push(
                    BindGroupEntry { binding: 0, resource: BindingResource::Buffer(camera) },
                );
            },
            BindGroupKind::Light => {
                let light = UniformSlot::Light;
                entries.push(
                    BindGroupEntry { binding: 0, resource: BindingResource::Buffer(light) },
                );
            },
        }
        assert(entries@ =~= self.bindings());
        entries
    }
}

/// Every bind group fills its layout: slot by slot the binding numbers agree
/// and the resource is of the type the layout asks for.
pub proof fn lemma_bindings_fill_layout(kind: BindGroupKind)
    ensures
        kind.bindings().len() == kind.layout().len(),
        forall|i: int|
            0 <= i < kind.layout().len() ==> {
                &&& (#[trigger] kind.bindings()[i]).binding == kind.layout()[i].binding
                &&& kind.bindings()[i].resource.suits(kind.layout()[i].ty)
            },
        forall|i: int| 0 <= i < kind.layout().len() ==> (#[trigger] kind.layout()[i]).binding == i,
{
}

/// The two pipelines.
#[derive(Clone, Copy, Debug, PartialEq, Eq)]
pub enum PipelineId {
    /// Draws the textured, lit instances.
    Object,
    /// Draws the light itself.
    Light,
}

impl PipelineId {
    /// The kinds of the bind groups of the pipeline, by group index.
    pub open spec fn groups(self) -> Seq<BindGroupKind> {
        match self {
            PipelineId::Object => seq![
                BindGroupKind::Texture,
                BindGroupKind::Camera,
                BindGroupKind::Light,
            ],
            PipelineId::Light => seq![BindGroupKind::Camera, BindGroupKind::Light],
        }
    }

    /// The bind group layouts of the pipeline, in the order of their group
    /// indices.
    pub fn bind_group_layouts(&self) -> (kinds: Vec<BindGroupKind>)
        ensures
            kinds@ == self.groups(),
    {
        let mut kinds: Vec<BindGroupKind> = Vec::new();
        match self {
            PipelineId::Object => {
                kinds.push(BindGroupKind::Texture);
                kinds.push(BindGroupKind::Camera);
                kinds.push(BindGroupKind::Light);
            },
            PipelineId::Light => {
                kinds.push(BindGroupKind::Camera);
                kinds.push(BindGroupKind::Light);
            },
        }
        assert(kinds@ =~= self.groups());
        kinds
    }
}

/// The two shader modules. Each has a vertex stage and a fragment stage.
#[derive(Clone, Copy, Debug, PartialEq, Eq)]
pub enum ShaderModule {
    /// Shades the textured, lit instances.
    Normal,
    /// Shades the light itself.
    Light,
}

/// How primitives are assembled from vertices.
#[derive(Clone, Copy, Debug, PartialEq, Eq)]
pub enum PrimitiveTopology {
    PointList,
    LineList,
    TriangleList,
}

/// The winding of a front face.
#[derive(Clone, Copy, Debug, PartialEq, Eq)]
pub enum FrontFace {
    Ccw,
    Cw,
}

/// A side of a triangle.
#[derive(Clone, Copy, Debug, PartialEq, Eq)]
pub enum Face {
    Front,
    Back,
}

/// How a polygon is rasterised.
#[derive(Clone, Copy, Debug, PartialEq, Eq)]
pub enum PolygonMode {
    Fill,
    Line,
    Point,
}

/// When a fragment passes the depth test.
#[derive(Clone, Copy, Debug, PartialEq, Eq)]
pub enum CompareFunction {
    Less,
    LessEqual,
    Greater,
    Always,
}

/// How a fragment is combined with what the target holds.
#[derive(Clone, Copy, Debug, PartialEq, Eq)]
pub enum BlendComponent {
    /// The fragment replaces what was there.
    Replace,
    /// The fragment is laid over what was there by its alpha.
    Over,
}

/// Primitive assembly and rasterisation.
#[derive(Clone, Copy, Debug, PartialEq, Eq)]
pub struct PrimitiveState {
    pub topology: PrimitiveTopology,
    pub front_face: FrontFace,
    pub cull_mode: Option<Face>,
    pub unclipped_depth: bool,
    pub polygon_mode: PolygonMode,
    pub conservative: bool,
}

/// The colour target of a pipeline.
#[derive(Clone, Copy, Debug, PartialEq, Eq)]
pub struct ColorTargetState<F> {
    pub format: F,
    pub color_blend: BlendComponent,
    pub alpha_blend: BlendComponent,
    /// Whether red, green, blue and alpha are all written.
    pub write_all: bool,
}

/// The depth test of a pipeline. Stencil and depth bias are left at rest.
#[derive(Clone, Copy, Debug, PartialEq, Eq)]
pub struct DepthStencilState<F> {
    pub format: F,
    pub depth_write_enabled: bool,
    pub depth_compare: CompareFunction,
}

/// Multisampling of a pipeline.
#[derive(Clone, Copy, Debug, PartialEq, Eq)]
pub struct MultisampleState {
    pub count: u32,
    pub mask: u64,
    pub alpha_to_coverage_enabled: bool,
}

/// Everything that makes a render pipeline. Texture formats are the
/// caller's own type; nothing here looks inside one.
#[derive(Debug, PartialEq, Eq)]
pub struct RenderPipelineDescriptor<F> {
    /// The shader module both stages come from.
    pub shader: ShaderModule,
    pub vertex_entry_point: &'static str,
    pub fragment_entry_point: &'static str,
    /// The bind group layouts, by group index.
    pub layout: Vec<BindGroupKind>,
    /// The vertex buffers, by slot.
    pub buffers: Vec<VertexBufferLayout>,
    pub target: ColorTargetState<F>,
    pub primitive: PrimitiveState,
    pub depth_stencil: Option<DepthStencilState<F>>,
    pub multisample: MultisampleState,
}

/// The primitive state of both pipelines: filled triangle lists, front faces
/// counter-clockwise, back faces culled, depth clipped.
pub open spec fn fixed_primitive() -> PrimitiveState {
    PrimitiveState {
        topology: PrimitiveTopology::TriangleList,
        front_face: FrontFace::Ccw,
        cull_mode: Some(Face::Back),
        unclipped_depth: false,
        polygon_mode: PolygonMode::Fill,
        conservative: false,
    }
}

/// The multisample state of both pipelines: one sample, every sample
/// enabled.
pub open spec fn fixed_multisample() -> MultisampleState {
    MultisampleState { count: 1, mask: 0xFFFF_FFFF_FFFF_FFFF, alpha_to_coverage_enabled: false }
}

/// The colour target of both pipelines: fragments replace what the target
/// holds, in all four channels.
pub open spec fn fixed_target<F>(format: F) -> ColorTargetState<F> {
    ColorTargetState {
        format,
        color_blend: BlendComponent::Replace,
        alpha_blend: BlendComponent::Replace,
        write_all: true,
    }
}

/// The depth test of both pipelines: nearer fragments win and are written.
pub open spec fn fixed_depth<F>(format: F) -> DepthStencilState<F> {
    DepthStencilState { format, depth_write_enabled: true, depth_compare: CompareFunction::Less }
}

/// Describes a render pipeline over the given shader, bind group layouts and
/// vertex buffers, for a colour target of `color_format`. The configuration
/// is the same for every pipeline; a depth test is part of it exactly when a
/// depth format is given.
pub fn create_render_pipeline<F>(
    shader: ShaderModule,
    layout: Vec<BindGroupKind>,
    vertex_layouts: Vec<VertexBufferLayout>,
    color_format: F,
    depth_format: Option<F>,
) -> (pipeline: RenderPipelineDescriptor<F>)
    ensures
        pipeline.shader == shader,
        pipeline.vertex_entry_point@ == "vs_main"@,
        pipeline.fragment_entry_point@ == "fs_main"@,
        pipeline.layout == layout,
        pipeline.buffers == vertex_layouts,
        pipeline.target == fixed_target(color_format),
        pipeline.primitive == fixed_primitive(),
        pipeline.depth_stencil == match depth_format {
            Some(format) => Some(fixed_depth(format)),
            None => None,
        },
        pipeline.multisample == fixed_multisample(),
{
    RenderPipelineDescriptor {
        shader,
        vertex_entry_point: "vs_main",
        fragment_entry_point: "fs_main",
        layout,
        buffers: vertex_layouts,
        target: ColorTargetState {
            format: color_format,
            color_blend: BlendComponent::Replace,
            alpha_blend: BlendComponent::Replace,
            write_all: true,
        },
        primitive: PrimitiveState {
            topology: PrimitiveTopology::TriangleList,
            front_face: FrontFace::Ccw,
            cull_mode: Some(Face::Back),
            unclipped_depth: false,
            polygon_mode: PolygonMode::Fill,
            conservative: false,
        },
        depth_stencil: match depth_format {
            Some(format) => Some(
                DepthStencilState {
                    format,
                    depth_write_enabled: true,
                    depth_compare: CompareFunction::Less,
                },
            ),
            None => None,
        },
        multisample: MultisampleState {
            count: 1,
            mask: 0xFFFF_FFFF_FFFF_FFFF,
            alpha_to_coverage_enabled: false,
        },
    }
}

/// Whether `layout` is the layout of a buffer of mesh vertices.
pub open spec fn is_vertex_layout(layout: VertexBufferLayout) -> bool {
    &&& layout.array_stride == MODEL_VERTEX_SIZE
    &&& layout.step_mode == VertexStepMode::Vertex
    &&& layout.attributes@ == ModelVertex::attributes()
}

/// Whether `layout` is the layout of a buffer of packed instances.
pub open spec fn is_instance_layout(layout: VertexBufferLayout) -> bool {
    &&& layout.array_stride == INSTANCE_RAW_SIZE
    &&& layout.step_mode == VertexStepMode::Instance
    &&& layout.attributes@ == InstanceRaw::attributes()
}

/// The two pipelines of the renderer.
#[derive(Debug, PartialEq, Eq)]
pub struct PipelineSet<F> {
    pub object: RenderPipelineDescriptor<F>,
    pub light: RenderPipelineDescriptor<F>,
}

impl<F> PipelineSet<F> {
    /// Both pipelines are as the renderer needs them for a colour target of
    /// `color_format` and a depth buffer of `depth_format`.
    ///
    /// The object pipeline reads mesh vertices from slot 0 and packed
    /// instances from slot 1; the light pipeline reads mesh vertices only.
    /// Each has its shader module and the bind groups of its
    /// [`PipelineId`], and both share the fixed configuration with the
    /// depth test on.
    pub open spec fn describes(self, color_format: F, depth_format: F) -> bool {
        &&& self.object.shader == ShaderModule::Normal
        &&& self.object.layout@ == PipelineId::Object.groups()
        &&& self.object.buffers@.len() == 2
        &&& is_vertex_layout(self.object.buffers@[0])
        &&& is_instance_layout(self.object.buffers@[1])
        &&& self.light.shader == ShaderModule::Light
        &&& self.light.layout@ == PipelineId::Light.groups()
        &&& self.light.buffers@.len() == 1
        &&& is_vertex_layout(self.light.buffers@[0])
        &&& self.object.fixed_for(color_format, depth_format)
        &&& self.light.fixed_for(color_format, depth_format)
    }
}

impl<F> RenderPipelineDescriptor<F> {
    /// The pipeline has the configuration that is the same for every
    /// pipeline, with the depth test on.
    pub open spec fn fixed_for(self, color_format: F, depth_format: F) -> bool {
        &&& self.vertex_entry_point@ == "vs_main"@
        &&& self.fragment_entry_point@ == "fs_main"@
        &&& self.target == fixed_target(color_format)
        &&& self.primitive == fixed_primitive()
        &&& self.depth_stencil == Some(fixed_depth(depth_format))
        &&& self.multisample == fixed_multisample()
    }
}

impl<F: Copy> PipelineSet<F> {
    /// Describes both pipelines for a colour target of `color_format` and a
    /// depth buffer of `depth_format`.
    pub fn build(color_format: F, depth_format: F) -> (set: Self)
        ensures
            set.describes(color_format, depth_format),
    {
        let mut object_buffers: Vec<VertexBufferLayout> = Vec::new();
        object_buffers.push(ModelVertex::desc());
        object_buffers.push(InstanceRaw::desc());
        let object = create_render_pipeline(
            ShaderModule::Normal,
            PipelineId::Object.bind_group_layouts(),
            object_buffers,
            color_format,
            Some(depth_format),
        );
        let mut light_buffers: Vec<VertexBufferLayout> = Vec::new();
        light_buffers.push(ModelVertex::desc());
        let light = create_render_pipeline(
            ShaderModule::Light,
            PipelineId::Light.bind_group_layouts(),
            light_buffers,
            color_format,
            Some(depth_format),
        );
        PipelineSet { object, light }
    }
}

/// In the object pipeline the two vertex buffers never share a shader
/// location.
pub proof fn lemma_object_buffers_disjoint<F>(set: PipelineSet<F>, color_format: F, depth_format: F)
    requires
        set.describes(color_format, depth_format),
    ensures
        set.object.buffers@[0].disjoint_locations(set.object.buffers@[1]),
        set.object.buffers@[0].tight(),
        set.object.buffers@[1].tight(),
{
    lemma_vertex_and_instance_locations_disjoint(set.object.buffers@[0], set.object.buffers@[1]);
    lemma_vertex_layout_tight(set.object.buffers@[0]);
    lemma_instance_layout_tight(set.object.buffers@[1]);
}

} // verus!
