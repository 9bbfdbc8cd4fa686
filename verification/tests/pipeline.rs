use scene_renderer::geometry::ModelVertex;
use scene_renderer::instance::InstanceRaw;
use scene_renderer::pipeline::{
    create_render_pipeline, BindGroupEntry, BindGroupKind, BindGroupLayoutEntry, BindingResource,
    BindingType, BlendComponent, ColorTargetState, CompareFunction, DepthStencilState, Face,
    FrontFace, MultisampleState, PipelineId, PipelineSet, PolygonMode, PrimitiveState,
    PrimitiveTopology, ShaderModule, ShaderStages, TextureSlot, UniformSlot,
};

const FRAGMENT: ShaderStages = ShaderStages { vertex: false, fragment: true };
const BOTH: ShaderStages = ShaderStages { vertex: true, fragment: true };

fn fixed_primitive() -> PrimitiveState {
    PrimitiveState {
        topology: PrimitiveTopology::TriangleList,
        front_face: FrontFace::Ccw,
        cull_mode: Some(Face::Back),
        unclipped_depth: false,
        polygon_mode: PolygonMode::Fill,
        conservative: false,
    }
}

#[test]
fn texture_layout_has_two_textures_each_with_its_sampler() {
    let texture = BindingType::Texture { filterable: true, multisampled: false };
    let sampler = BindingType::Sampler { filtering: true };
    assert_eq!(
        BindGroupKind::Texture.layout_entries(),
        vec![
            BindGroupLayoutEntry { binding: 0, visibility: FRAGMENT, ty: texture },
            BindGroupLayoutEntry { binding: 1, visibility: FRAGMENT, ty: sampler },
            BindGroupLayoutEntry { binding: 2, visibility: FRAGMENT, ty: texture },
            BindGroupLayoutEntry { binding: 3, visibility: FRAGMENT, ty: sampler },
        ]
    );
}

#[test]
fn camera_and_light_layouts_are_one_uniform_for_both_stages() {
    let uniform = BindGroupLayoutEntry {
        binding: 0,
        visibility: BOTH,
        ty: BindingType::Buffer { has_dynamic_offset: false, min_binding_size: None },
    };
    assert_eq!(BindGroupKind::Camera.layout_entries(), vec![uniform]);
    assert_eq!(BindGroupKind::Light.layout_entries(), vec![uniform]);
}

#[test]
fn bind_groups_fill_their_layouts() {
    assert_eq!(
        BindGroupKind::Texture.entries(),
        vec![
            BindGroupEntry {
                binding: 0,
                resource: BindingResource::TextureView(TextureSlot::Diffuse),
            },
            BindGroupEntry { binding: 1, resource: BindingResource::Sampler(TextureSlot::Diffuse) },
            BindGroupEntry {
                binding: 2,
                resource: BindingResource::TextureView(TextureSlot::Normal),
            },
            BindGroupEntry { binding: 3, resource: BindingResource::Sampler(TextureSlot::Normal) },
        ]
    );
    assert_eq!(
        BindGroupKind::Camera.entries(),
        vec![BindGroupEntry { binding: 0, resource: BindingResource::Buffer(UniformSlot::Camera) }]
    );
    assert_eq!(
        BindGroupKind::Light.entries(),
        vec![BindGroupEntry { binding: 0, resource: BindingResource::Buffer(UniformSlot::Light) }]
    );
    for kind in [BindGroupKind::Texture, BindGroupKind::Camera, BindGroupKind::Light] {
        let layout = kind.layout_entries();
        let entries = kind.entries();
        assert_eq!(layout.len(), entries.len());
        for (slot, entry) in layout.iter().zip(entries.iter()) {
            assert_eq!(slot.binding, entry.binding);
            let suits = matches!(
                (entry.resource, slot.ty),
                (BindingResource::Buffer(_), BindingType::Buffer { .. })
                    | (BindingResource::TextureView(_), BindingType::Texture { .. })
                    | (BindingResource::Sampler(_), BindingType::Sampler { .. })
            );
            assert!(suits);
        }
    }
}

#[test]
fn pipelines_order_their_bind_groups() {
    assert_eq!(
        PipelineId::Object.bind_group_layouts(),
        vec![BindGroupKind::Texture, BindGroupKind::Camera, BindGroupKind::Light]
    );
    assert_eq!(
        PipelineId::Light.bind_group_layouts(),
        vec![BindGroupKind::Camera, BindGroupKind::Light]
    );
}

#[test]
fn render_pipeline_has_the_fixed_configuration() {
    let pipeline = create_render_pipeline(
        ShaderModule::Normal,
        PipelineId::Object.bind_group_layouts(),
        vec![ModelVertex::desc(), InstanceRaw::desc()],
        "bgra8",
        Some("depth32"),
    );
    assert_eq!(pipeline.shader, ShaderModule::Normal);
    assert_eq!(pipeline.vertex_entry_point, "vs_main");
    assert_eq!(pipeline.fragment_entry_point, "fs_main");
    assert_eq!(pipeline.layout, PipelineId::Object.bind_group_layouts());
    assert_eq!(pipeline.buffers, vec![ModelVertex::desc(), InstanceRaw::desc()]);
    assert_eq!(
        pipeline.target,
        ColorTargetState {
            format: "bgra8",
            color_blend: BlendComponent::Replace,
            alpha_blend: BlendComponent::Replace,
            write_all: true,
        }
    );
    assert_eq!(pipeline.primitive, fixed_primitive());
    assert_eq!(
        pipeline.depth_stencil,
        Some(DepthStencilState {
            format: "depth32",
            depth_write_enabled: true,
            depth_compare: CompareFunction::Less,
        })
    );
    assert_eq!(
        pipeline.multisample,
        MultisampleState { count: 1, mask: !0, alpha_to_coverage_enabled: false }
    );
}

#[test]
fn render_pipeline_without_depth_format_has_no_depth_test() {
    let pipeline = create_render_pipeline(
        ShaderModule::Light,
        PipelineId::Light.bind_group_layouts(),
        vec![ModelVertex::desc()],
        7u32,
        None,
    );
    assert_eq!(pipeline.depth_stencil, None);
    assert_eq!(pipeline.target.format, 7);
    assert_eq!(pipeline.primitive, fixed_primitive());
    assert_eq!(pipeline.shader, ShaderModule::Light);
}

#[test]
fn pipeline_set_holds_object_and_light_pipelines() {
    let set = PipelineSet::build("surface", "depth");
    assert_eq!(set.object.shader, ShaderModule::Normal);
    assert_eq!(set.object.layout, PipelineId::Object.bind_group_layouts());
    assert_eq!(set.object.buffers, vec![ModelVertex::desc(), InstanceRaw::desc()]);
    assert_eq!(set.light.shader, ShaderModule::Light);
    assert_eq!(set.light.layout, PipelineId::Light.bind_group_layouts());
    assert_eq!(set.light.buffers, vec![ModelVertex::desc()]);
    for pipeline in [&set.object, &set.light] {
        assert_eq!(pipeline.target.format, "surface");
        assert_eq!(pipeline.depth_stencil.unwrap().format, "depth");
        assert_eq!(pipeline.depth_stencil.unwrap().depth_compare, CompareFunction::Less);
        assert!(pipeline.depth_stencil.unwrap().depth_write_enabled);
        assert_eq!(pipeline.primitive, fixed_primitive());
        assert_eq!(pipeline.multisample.count, 1);
        assert_eq!(pipeline.vertex_entry_point, "vs_main");
        assert_eq!(pipeline.fragment_entry_point, "fs_main");
    }
}
