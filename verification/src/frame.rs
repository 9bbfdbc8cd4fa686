//! What a frame is made of: the colour it is cleared to, the commands that
//! draw it, and what is to be done with them.

use vstd::prelude::*;
use crate::device::{BindGroupId, BufferId};
use crate::geometry::{Mesh, ModelView};
use crate::phase::{FramePhase, FrameStep};
use crate::pipeline::{BindGroupKind, PipelineId};
use crate::scalar::{ONE, ONE_WIDE, TENTH_WIDE, THREE_TENTHS_WIDE, TWO_TENTHS_WIDE};

verus! {

/// One channel of a colour: a double-precision value given by its bits, or
/// the quotient of such a value by a whole number, left for the caller to
/// divide.
#[derive(Clone, Copy, Debug, PartialEq, Eq)]
pub enum Channel {
    Value(u64),
    Ratio { numerator: u64, denominator: u32 },
}

/// The colour a frame is cleared to.
#[derive(Clone, Copy, Debug, PartialEq, Eq)]
pub struct ClearColor {
    pub r: Channel,
    pub g: Channel,
    pub b: Channel,
    pub a: Channel,
}

impl ClearColor {
    /// The colour before the pointer has moved: a dark blue.
    pub open spec fn initial() -> ClearColor {
        ClearColor {
            r: Channel::Value(TENTH_WIDE),
            g: Channel::Value(TWO_TENTHS_WIDE),
            b: Channel::Value(THREE_TENTHS_WIDE),
            a: Channel::Value(ONE_WIDE),
        }
    }

    /// The colour that follows the pointer: red is the pointer's x over the
    /// width of the window, green its y over the height.
    pub open spec fn following(x: u64, y: u64, width: u32, height: u32) -> ClearColor {
        ClearColor {
            r: Channel::Ratio { numerator: x, denominator: width },
            g: Channel::Ratio { numerator: y, denominator: height },
            b: Channel::Value(THREE_TENTHS_WIDE),
            a: Channel::Value(ONE_WIDE),
        }
    }
}

/// One command of a render pass.
#[derive(Clone, Copy, Debug, PartialEq, Eq)]
pub enum RenderCommand {
    SetPipeline(PipelineId),
    SetVertexBuffer { slot: u32, buffer: BufferId },
    /// Sets the index buffer; indices are 32 bits wide.
    SetIndexBuffer { buffer: BufferId },
    SetBindGroup { index: u32, group: BindGroupId },
    /// Draws the indices from `first_index` up to `end_index`, once for each
    /// instance from `first_instance` up to `end_instance`.
    DrawIndexed {
        first_index: u32,
        end_index: u32,
        base_vertex: i32,
        first_instance: u32,
        end_instance: u32,
    },
}

/// One thing to do with an acquired image, in the order given.
#[derive(Clone, Debug, PartialEq, Eq)]
pub enum FrameAction {
    /// Record one render pass that clears colour and depth and then runs
    /// the commands.
    Encode { clear_color: ClearColor, clear_depth: u32, commands: Vec<RenderCommand> },
    /// Hand the recorded commands to the queue.
    Submit,
    /// Hand the image back for display.
    Present,
}

impl FrameAction {
    /// The step of the frame that the action is.
    pub open spec fn step(self) -> FrameStep {
        match self {
            FrameAction::Encode { .. } => FrameStep::OpenEncoder,
            FrameAction::Submit => FrameStep::Submit,
            FrameAction::Present => FrameStep::Present,
        }
    }
}

/// The bind groups with which `pipeline` draws `mesh`, by group index. The
/// light pipeline binds the camera and the light. The object pipeline binds
/// the material of the mesh first, so that the material changes from one
/// draw call to the next with the mesh that is drawn.
pub open spec fn draw_groups(pipeline: PipelineId, mesh: Mesh) -> Seq<BindGroupId> {
    match pipeline {
        PipelineId::Light => seq![BindGroupId::Camera, BindGroupId::Light],
        PipelineId::Object => seq![
            BindGroupId::Material(mesh.material),
            BindGroupId::Camera,
            BindGroupId::Light,
        ],
    }
}

/// The commands that draw one mesh: its vertex buffer in slot 0, its index
/// buffer, the bind groups by index, and one indexed draw of all its
/// elements for the instances from `first_instance` up to `end_instance`.
pub open spec fn mesh_commands(
    mesh: int,
    elements: u32,
    groups: Seq<BindGroupId>,
    first_instance: u32,
    end_instance: u32,
) -> Seq<RenderCommand> {
    seq![
        RenderCommand::SetVertexBuffer { slot: 0, buffer: BufferId::Vertices(mesh as usize) },
        RenderCommand::SetIndexBuffer { buffer: BufferId::Indices(mesh as usize) },
    ] + Seq::new(
        groups.len(),
        |k: int| RenderCommand::SetBindGroup { index: k as u32, group: groups[k] },
    ) + seq![
        RenderCommand::DrawIndexed {
            first_index: 0,
            end_index: elements,
            base_vertex: 0,
            first_instance,
            end_instance,
        },
    ]
}

/// The commands with which `pipeline` draws the first `count` meshes, one
/// after the other, each with its own bind groups.
pub open spec fn model_commands(
    meshes: Seq<Mesh>,
    count: int,
    pipeline: PipelineId,
    first_instance: u32,
    end_instance: u32,
) -> Seq<RenderCommand>
    decreases count,
{
    if count <= 0 {
        Seq::empty()
    } else {
        model_commands(meshes, count - 1, pipeline, first_instance, end_instance) + mesh_commands(
            count - 1,
            meshes[count - 1].num_elements,
            draw_groups(pipeline, meshes[count - 1]),
            first_instance,
            end_instance,
        )
    }
}

/// The commands of a frame: the instance buffer goes to slot 1; the light
/// pipeline draws every mesh once, as the light; the object pipeline then
/// draws every mesh for all `instances` instances, each mesh with its own
/// material.
pub open spec fn frame_commands(meshes: Seq<Mesh>, instances: u32) -> Seq<RenderCommand> {
    seq![
        RenderCommand::SetVertexBuffer { slot: 1, buffer: BufferId::Instances },
        RenderCommand::SetPipeline(PipelineId::Light),
    ] + model_commands(meshes, meshes.len() as int, PipelineId::Light, 0, 1) + seq![
        RenderCommand::SetPipeline(PipelineId::Object),
    ] + model_commands(meshes, meshes.len() as int, PipelineId::Object, 0, instances)
}

/// Number of draw calls among `commands`.
pub open spec fn draw_calls(commands: Seq<RenderCommand>) -> nat
    decreases commands.len(),
{
    if commands.len() == 0 {
        0
    } else {
        draw_calls(commands.drop_last()) + if commands.last() is DrawIndexed {
            1nat
        } else {
            0nat
        }
    }
}

/// Appends the commands that draw one mesh.
fn draw_mesh(
    commands: &mut Vec<RenderCommand>,
    mesh: usize,
    elements: u32,
    groups: &[BindGroupId],
    first_instance: u32,
    end_instance: u32,
)
    requires
        groups@.len() <= u32::MAX,
    ensures
        final(commands)@ == old(commands)@ + mesh_commands(
            mesh as int,
            elements,
            groups@,
            first_instance,
            end_instance,
        ),
{
    let ghost start = commands@;
    commands.push(RenderCommand::SetVertexBuffer { slot: 0, buffer: BufferId::Vertices(mesh) });
    commands.push(RenderCommand::SetIndexBuffer { buffer: BufferId::Indices(mesh) });
    let mut k: usize = 0;
    while k < groups.len()
        invariant
            k <= groups@.len() <= u32::MAX,
            commands@.len() == start.len() + 2 + k,
            forall|i: int| 0 <= i < start.len() ==> commands@[i] == start[i],
            commands@[start.len() as int] == (RenderCommand::SetVertexBuffer {
                slot: 0,
                buffer: BufferId::Vertices(mesh),
            }),
            commands@[start.len() as int + 1] == (RenderCommand::SetIndexBuffer {
                buffer: BufferId::Indices(mesh),
            }),
            forall|i: int|
                0 <= i < k ==> commands@[start.len() as int + 2 + i] == (
                RenderCommand::SetBindGroup { index: i as u32, group: groups@[i] }),
        decreases groups@.len() - k,
    {
        commands.push(RenderCommand::SetBindGroup { index: k as u32, group: groups[k] });
        k = k + 1;
    }
    commands.push(
        RenderCommand::DrawIndexed {
            first_index: 0,
            end_index: elements,
            base_vertex: 0,
            first_instance,
            end_instance,
        },
    );
    assert(commands@ =~= start + mesh_commands(
        mesh as int,
        elements,
        groups@,
        first_instance,
        end_instance,
    ));
}

/// Appends the commands with which `pipeline` draws every mesh.
fn draw_meshes(
    commands: &mut Vec<RenderCommand>,
    meshes: &[Mesh],
    pipeline: PipelineId,
    first_instance: u32,
    end_instance: u32,
)
    ensures
        final(commands)@ == old(commands)@ + model_commands(
            meshes@,
            meshes@.len() as int,
            pipeline,
            first_instance,
            end_instance,
        ),
{
    let ghost start = commands@;
    let mut i: usize = 0;
    assert(commands@ =~= start + model_commands(
        meshes@,
        0,
        pipeline,
        first_instance,
        end_instance,
    ));
    while i < meshes.len()
        invariant
            i <= meshes@.len(),
            commands@ == start + model_commands(
                meshes@,
                i as int,
                pipeline,
                first_instance,
                end_instance,
            ),
        decreases meshes@.len() - i,
    {
        let mesh = &meshes[i];
        match pipeline {
            PipelineId::Light => {
                let groups: [BindGroupId; 2] = [BindGroupId::Camera, BindGroupId::Light];
                assert(groups@ =~= draw_groups(pipeline, *mesh));
                draw_mesh(
                    commands,
                    i,
                    mesh.num_elements,
                    groups.as_slice(),
                    first_instance,
                    end_instance,
                );
            },
            PipelineId::Object => {
                let groups: [BindGroupId; 3] = [
                    BindGroupId::Material(mesh.material),
                    BindGroupId::Camera,
                    BindGroupId::Light,
                ];
                assert(groups@ =~= draw_groups(pipeline, *mesh));
                draw_mesh(
                    commands,
                    i,
                    mesh.num_elements,
                    groups.as_slice(),
                    first_instance,
                    end_instance,
                );
            },
        }
        assert(commands@ =~= start + model_commands(
            meshes@,
            i as int + 1,
            pipeline,
            first_instance,
            end_instance,
        ));
        i = i + 1;
    }
}

/// Appends the commands that draw every mesh once, as the light: the camera
/// and the light are bound, and a single instance is drawn.
pub fn draw_light_model(commands: &mut Vec<RenderCommand>, meshes: &[Mesh])
    ensures
        final(commands)@ == old(commands)@ + model_commands(
            meshes@,
            meshes@.len() as int,
            PipelineId::Light,
            0,
            1,
        ),
{
    draw_meshes(commands, meshes, PipelineId::Light, 0, 1);
}

/// Appends the commands that draw every mesh for the instances below
/// `instances`, textured and lit: for each mesh its own material is bound,
/// then the camera and the light.
pub fn draw_textured_instanced(commands: &mut Vec<RenderCommand>, meshes: &[Mesh], instances: u32)
    ensures
        final(commands)@ == old(commands)@ + model_commands(
            meshes@,
            meshes@.len() as int,
            PipelineId::Object,
            0,
            instances,
        ),
{
    draw_meshes(commands, meshes, PipelineId::Object, 0, instances);
}

/// The commands of one frame.
pub fn encode_frame(meshes: &[Mesh], instances: u32) -> (commands: Vec<RenderCommand>)
    ensures
        commands@ == frame_commands(meshes@, instances),
{
    let mut commands: Vec<RenderCommand> = Vec::new();
    commands.push(RenderCommand::SetVertexBuffer { slot: 1, buffer: BufferId::Instances });
    commands.push(RenderCommand::SetPipeline(PipelineId::Light));
    assert(commands@ =~= seq![
        RenderCommand::SetVertexBuffer { slot: 1, buffer: BufferId::Instances },
        RenderCommand::SetPipeline(PipelineId::Light),
    ]);
    draw_light_model(&mut commands, meshes);
    commands.push(RenderCommand::SetPipeline(PipelineId::Object));
    draw_textured_instanced(&mut commands, meshes, instances);
    assert(commands@ =~= frame_commands(meshes@, instances));
    commands
}

/// `actions` are what is to be done with an acquired image: one render
/// pass, cleared to `color` and to a depth of one, that holds the commands
/// of the frame; then the submission; then the presentation.
pub open spec fn planned_frame(
    actions: Seq<FrameAction>,
    color: ClearColor,
    meshes: Seq<Mesh>,
    instances: u32,
) -> bool {
    &&& actions.len() == 3
    &&& actions[0] matches FrameAction::Encode { clear_color, clear_depth, commands }
    &&& clear_color == color
    &&& clear_depth == ONE
    &&& commands@ == frame_commands(meshes, instances)
    &&& actions[1] == FrameAction::Submit
    &&& actions[2] == FrameAction::Present
}

/// Plans what is to be done with an acquired image.
pub fn plan_frame(color: ClearColor, meshes: &[Mesh], instances: u32) -> (actions: Vec<
    FrameAction,
>)
    ensures
        planned_frame(actions@, color, meshes@, instances),
{
    let commands = encode_frame(meshes, instances);
    let mut actions: Vec<FrameAction> = Vec::new();
    actions.push(FrameAction::Encode { clear_color: color, clear_depth: ONE, commands });
    actions.push(FrameAction::Submit);
    actions.push(FrameAction::Present);
    actions
}

/// The actions of a planned frame carry it from the acquired image through
/// encoding and submission to presentation, and closing it then returns to
/// idle.
pub proof fn lemma_planned_frame_runs(
    actions: Seq<FrameAction>,
    color: ClearColor,
    meshes: Seq<Mesh>,
    instances: u32,
)
    requires
        planned_frame(actions, color, meshes, instances),
    ensures
        FramePhase::ImageAcquired.run(actions.map_values(|a: FrameAction| a.step())) == Some(
            FramePhase::Presented,
        ),
        FramePhase::Presented.after(FrameStep::Finish) == Some(FramePhase::Idle),
{
    reveal_with_fuel(FramePhase::run, 4);
    let steps = actions.map_values(|a: FrameAction| a.step());
    assert(steps[0] == FrameStep::OpenEncoder);
    assert(steps.skip(1)[0] == FrameStep::Submit);
    assert(steps.skip(1).skip(1)[0] == FrameStep::Present);
    assert(steps.skip(1).skip(1).skip(1).len() == 0);
}

/// The draw calls of two runs of commands add up.
pub proof fn lemma_draw_calls_add(first: Seq<RenderCommand>, second: Seq<RenderCommand>)
    ensures
        draw_calls(first + second) == draw_calls(first) + draw_calls(second),
    decreases second.len(),
{
    if second.len() == 0 {
        assert(first + second =~= first);
    } else {
        lemma_draw_calls_add(first, second.drop_last());
        assert((first + second).drop_last() =~= first + second.drop_last());
    }
}

/// Drawing one mesh is one draw call, whatever is bound.
pub proof fn lemma_mesh_draws_once(
    mesh: int,
    elements: u32,
    groups: Seq<BindGroupId>,
    first_instance: u32,
    end_instance: u32,
)
    ensures
        draw_calls(mesh_commands(mesh, elements, groups, first_instance, end_instance)) == 1,
{
    let head = seq![
        RenderCommand::SetVertexBuffer { slot: 0, buffer: BufferId::Vertices(mesh as usize) },
        RenderCommand::SetIndexBuffer { buffer: BufferId::Indices(mesh as usize) },
    ];
    let binds = Seq::new(
        groups.len(),
        |k: int| RenderCommand::SetBindGroup { index: k as u32, group: groups[k] },
    );
    let draw = seq![
        RenderCommand::DrawIndexed {
            first_index: 0,
            end_index: elements,
            base_vertex: 0,
            first_instance,
            end_instance,
        },
    ];
    lemma_draw_calls_add(head + binds, draw);
    lemma_draw_calls_add(head, binds);
    lemma_no_draw(head);
    lemma_no_draw(binds);
    assert(draw.drop_last() =~= Seq::<RenderCommand>::empty());
    assert(draw_calls(draw.drop_last()) == 0);
    assert(draw_calls(draw) == 1);
}

/// Commands none of which draws hold no draw call.
pub proof fn lemma_no_draw(commands: Seq<RenderCommand>)
    requires
        forall|i: int| 0 <= i < commands.len() ==> !(#[trigger] commands[i] is DrawIndexed),
    ensures
        draw_calls(commands) == 0,
    decreases commands.len(),
{
    if commands.len() > 0 {
        lemma_no_draw(commands.drop_last());
    }
}

/// Drawing `count` meshes is `count` draw calls, whichever pipeline draws.
pub proof fn lemma_model_draws(
    meshes: Seq<Mesh>,
    count: int,
    pipeline: PipelineId,
    first_instance: u32,
    end_instance: u32,
)
    requires
        0 <= count,
    ensures
        draw_calls(model_commands(meshes, count, pipeline, first_instance, end_instance))
            == count,
    decreases count,
{
    if count > 0 {
        lemma_model_draws(meshes, count - 1, pipeline, first_instance, end_instance);
        lemma_mesh_draws_once(
            count - 1,
            meshes[count - 1].num_elements,
            draw_groups(pipeline, meshes[count - 1]),
            first_instance,
            end_instance,
        );
        lemma_draw_calls_add(
            model_commands(meshes, count - 1, pipeline, first_instance, end_instance),
            mesh_commands(
                count - 1,
                meshes[count - 1].num_elements,
                draw_groups(pipeline, meshes[count - 1]),
                first_instance,
                end_instance,
            ),
        );
    }
}

/// A frame issues two draw calls for every mesh: one with the light
/// pipeline and one with the object pipeline.
pub proof fn lemma_frame_draws(meshes: Seq<Mesh>, instances: u32)
    ensures
        draw_calls(frame_commands(meshes, instances)) == 2 * meshes.len(),
{
    let n = meshes.len() as int;
    let head = seq![
        RenderCommand::SetVertexBuffer { slot: 1, buffer: BufferId::Instances },
        RenderCommand::SetPipeline(PipelineId::Light),
    ];
    let light = model_commands(meshes, n, PipelineId::Light, 0, 1);
    let switch = seq![RenderCommand::SetPipeline(PipelineId::Object)];
    let object = model_commands(meshes, n, PipelineId::Object, 0, instances);
    lemma_no_draw(head);
    lemma_no_draw(switch);
    lemma_model_draws(meshes, n, PipelineId::Light, 0, 1);
    lemma_model_draws(meshes, n, PipelineId::Object, 0, instances);
    lemma_draw_calls_add(head, light);
    lemma_draw_calls_add(head + light, switch);
    lemma_draw_calls_add(head + light + switch, object);
}

/// The bind groups of each draw are of the kinds the pipeline's layout
/// names, index by index.
pub proof fn lemma_groups_match_layout(pipeline: PipelineId, mesh: Mesh)
    ensures
        draw_groups(pipeline, mesh).map_values(|g: BindGroupId| g.kind()) == pipeline.groups(),
{
    assert(draw_groups(pipeline, mesh).map_values(|g: BindGroupId| g.kind())
        =~= pipeline.groups());
}

/// In the object pass every mesh is drawn with its own material: the draw
/// of mesh `i` takes six commands, of which the third binds the material of
/// that mesh as group zero, the next two bind the camera and the light, and
/// the last draws all instances.
pub proof fn lemma_object_draw_binds_own_material(
    meshes: Seq<Mesh>,
    count: int,
    instances: u32,
    i: int,
)
    requires
        0 <= i < count,
    ensures
        model_commands(meshes, count, PipelineId::Object, 0, instances).len() == 6 * count,
        model_commands(meshes, count, PipelineId::Object, 0, instances)[6 * i + 2] == (
        RenderCommand::SetBindGroup { index: 0, group: BindGroupId::Material(meshes[i].material) }),
        model_commands(meshes, count, PipelineId::Object, 0, instances)[6 * i + 3] == (
        RenderCommand::SetBindGroup { index: 1, group: BindGroupId::Camera }),
        model_commands(meshes, count, PipelineId::Object, 0, instances)[6 * i + 4] == (
        RenderCommand::SetBindGroup { index: 2, group: BindGroupId::Light }),
        model_commands(meshes, count, PipelineId::Object, 0, instances)[6 * i + 5] == (
        RenderCommand::DrawIndexed {
            first_index: 0,
            end_index: meshes[i].num_elements,
            base_vertex: 0,
            first_instance: 0,
            end_instance: instances,
        }),
    decreases count,
{
    let before = model_commands(meshes, count - 1, PipelineId::Object, 0, instances);
    let block = mesh_commands(
        count - 1,
        meshes[count - 1].num_elements,
        draw_groups(PipelineId::Object, meshes[count - 1]),
        0,
        instances,
    );
    lemma_pass_len(meshes, count - 1, PipelineId::Object, 0, instances);
    assert(block.len() == 6);
    if i < count - 1 {
        lemma_object_draw_binds_own_material(meshes, count - 1, instances, i);
    } else {
        assert(block[2] == (RenderCommand::SetBindGroup {
            index: 0,
            group: BindGroupId::Material(meshes[i].material),
        }));
        assert(block[3] == (RenderCommand::SetBindGroup { index: 1, group: BindGroupId::Camera }));
        assert(block[4] == (RenderCommand::SetBindGroup { index: 2, group: BindGroupId::Light }));
    }
}

/// Number of commands with which `pipeline` draws one mesh: the two
/// buffers, one command for each bind group, and the draw.
pub open spec fn commands_per_mesh(pipeline: PipelineId) -> int {
    match pipeline {
        PipelineId::Light => 5,
        PipelineId::Object => 6,
    }
}

/// A pass takes the same number of commands for each mesh.
pub proof fn lemma_pass_len(
    meshes: Seq<Mesh>,
    count: int,
    pipeline: PipelineId,
    first_instance: u32,
    end_instance: u32,
)
    requires
        0 <= count,
    ensures
        model_commands(meshes, count, pipeline, first_instance, end_instance).len()
            == commands_per_mesh(pipeline) * count,
    decreases count,
{
    if count > 0 {
        lemma_pass_len(meshes, count - 1, pipeline, first_instance, end_instance);
    }
}

/// Where a frame binds the material of mesh `i` and draws it: after the
/// three commands that set the instance buffer and the two pipelines, and
/// after the light pass of five commands for each mesh, the object pass
/// takes six commands for each mesh, of which the third binds that mesh's
/// own material as group zero and the last draws all instances.
pub proof fn lemma_frame_binds_own_material(meshes: Seq<Mesh>, instances: u32, i: int)
    requires
        0 <= i < meshes.len(),
    ensures
        frame_commands(meshes, instances).len() == 3 + 11 * meshes.len(),
        frame_commands(meshes, instances)[3 + 5 * meshes.len() + 6 * i + 2] == (
        RenderCommand::SetBindGroup { index: 0, group: BindGroupId::Material(meshes[i].material) }),
        frame_commands(meshes, instances)[3 + 5 * meshes.len() + 6 * i + 5] == (
        RenderCommand::DrawIndexed {
            first_index: 0,
            end_index: meshes[i].num_elements,
            base_vertex: 0,
            first_instance: 0,
            end_instance: instances,
        }),
{
    let n = meshes.len() as int;
    lemma_pass_len(meshes, n, PipelineId::Light, 0, 1);
    lemma_pass_len(meshes, n, PipelineId::Object, 0, instances);
    lemma_object_draw_binds_own_material(meshes, n, instances, i);
}

/// The material that is bound for a mesh of a well-formed model is one of
/// the materials of that model.
pub proof fn lemma_bound_material_exists(model: ModelView, i: int)
    requires
        model.well_formed(),
        0 <= i < model.meshes.len(),
    ensures
        draw_groups(PipelineId::Object, model.meshes[i])[0] == BindGroupId::Material(
            model.meshes[i].material,
        ),
        model.meshes[i].material < model.materials.len(),
{
}

} // verus!
