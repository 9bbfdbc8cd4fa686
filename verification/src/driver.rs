//! The frame driver: the state of the renderer between frames, and what it
//! decides on every event.
//!
//! A program makes one [`State`] when its window and device are ready, hands
//! it every event of its loop, and on every redraw calls [`State::tick`],
//! [`State::update`] and [`State::render`], in that order.
//!
//! The driver owns no device. Each operation changes the driver's own state
//! and returns, as plain values, what the caller has to carry out on the
//! device, in the order given.

use vstd::prelude::*;
use crate::bytes::pack;
use crate::controller::CameraController;
use crate::device::{BufferId, BufferInit, BufferUsage, BufferWrite};
use crate::event::{
    unused_event_action, window_action, Event, LoopAction, WindowAction, WindowEvent,
};
use crate::frame::{plan_frame, planned_frame, Channel, ClearColor, FrameAction};
use crate::geometry::{
    index_buffer_bytes, vertex_buffer_bytes, vertex_buffer_words, Mesh, Model, ModelView,
};
use crate::instance::{
    instance_buffer_bytes, instance_buffer_words, is_grid, Instance, InstanceRaw, InstanceTable,
};
use crate::phase::{FramePhase, FrameStep, SurfaceError};
use crate::pipeline::PipelineSet;
use crate::scalar::{ONE_WIDE, TENTH_WIDE, THREE_TENTHS_WIDE, TWO_TENTHS_WIDE};
use crate::scene::{CAMERA_SENSITIVITY, CAMERA_SPEED, NUM_INSTANCES_PER_ROW, SPACE_BETWEEN};
use crate::uniform::{CameraUniform, LightUniform};
use crate::viewport::{ResizePlan, Size, SurfaceConfig, Viewport};

verus! {

/// What has to exist on the device before the first frame.
#[derive(Debug, PartialEq, Eq)]
pub struct Setup<F> {
    /// The configuration of the surface, with its format.
    pub surface: SurfaceConfig<F>,
    /// The size of the depth buffer.
    pub depth: Size,
    pub pipelines: PipelineSet<F>,
    /// The buffers: camera and light, then vertices and indices of each
    /// mesh. The instance buffer follows from [`State::instance_buffer`].
    pub buffers: Vec<BufferInit>,
}

/// Why the driver could not be set up.
#[derive(Clone, Copy, Debug, PartialEq, Eq)]
pub enum InitError {
    /// The surface supports no texture format.
    NoSurfaceFormat,
    /// The packed instances are not as many as the instances.
    InstanceCountMismatch,
}

/// How to go on after a frame that could not be drawn.
#[derive(Clone, Copy, Debug, PartialEq, Eq)]
pub enum Recovery<F> {
    /// The surface was lost: the driver resized to its current size, and
    /// the plan is to be carried out.
    Resized(ResizePlan<F>),
    /// Memory ran out: leave the event loop.
    Exit,
    /// Report the error and go on with the next frame.
    Report,
}

/// What a tick has to work out in floating point.
#[derive(Clone, Copy, Debug, PartialEq, Eq)]
pub struct Tick {
    /// What the input devices have asked of the camera.
    pub controller: CameraController,
    /// Where the light is.
    pub light_position: [u32; 3],
    /// The angle by which the light is to turn, in billionths of a degree.
    pub light_angle: u128,
}

/// The state of the driver, as contracts speak of it.
pub struct DriverView<F> {
    pub viewport: Viewport<F>,
    pub clear_color: ClearColor,
    pub mouse_pressed: bool,
    pub controller: CameraController,
    pub camera: CameraUniform,
    pub light: LightUniform,
    pub instances: Seq<Instance>,
    pub model: ModelView,
}

/// The frame driver: the state of the renderer between frames.
pub struct State<F> {
    viewport: Viewport<F>,
    clear_color: ClearColor,
    mouse_pressed: bool,
    controller: CameraController,
    camera_uniform: CameraUniform,
    light_uniform: LightUniform,
    instances: InstanceTable,
    model: Model,
}

impl<F> View for State<F> {
    type V = DriverView<F>;

    closed spec fn view(&self) -> DriverView<F> {
        DriverView {
            viewport: self.viewport,
            clear_color: self.clear_color,
            mouse_pressed: self.mouse_pressed,
            controller: self.controller,
            camera: self.camera_uniform,
            light: self.light_uniform,
            instances: self.instances@,
            model: self.model@,
        }
    }
}

/// `buffers` are the buffers to create for a scene, each with its first
/// contents: the camera block and the light block, then for each mesh its
/// vertices and its indices.
pub open spec fn setup_buffers_match(
    buffers: Seq<BufferInit>,
    camera: CameraUniform,
    light: LightUniform,
    meshes: Seq<Mesh>,
) -> bool {
    &&& buffers.len() == 2 + 2 * meshes.len()
    &&& buffers[0].holds(BufferId::Camera, BufferUsage::Uniform, pack(camera.words()))
    &&& buffers[1].holds(BufferId::Light, BufferUsage::Uniform, pack(light.words()))
    &&& forall|i: int|
        0 <= i < meshes.len() ==> (#[trigger] buffers[2 + 2 * i]).holds(
            BufferId::Vertices(i as usize),
            BufferUsage::Vertex,
            pack(vertex_buffer_words(meshes[i].vertices@)),
        )
    &&& forall|i: int|
        0 <= i < meshes.len() ==> (#[trigger] buffers[3 + 2 * i]).holds(
            BufferId::Indices(i as usize),
            BufferUsage::Index,
            pack(meshes[i].indices@),
        )
}

impl<F> State<F> {
    #[verifier::type_invariant]
    closed spec fn sound(&self) -> bool {
        self.viewport.coherent()
    }
}

impl<F: Copy> State<F> {
    /// Sets the driver up for a window of `width` by `height` pixels.
    ///
    /// The surface gets the first of the formats it supports and presents
    /// in order. The instances stand in the grid of the scene. The camera
    /// block is made from `view_position` and `view_proj`, the light is the
    /// light at the start, the camera controller is at rest, and the frame
    /// is cleared to a dark blue. Without a format for the surface nothing
    /// can be set up.
    pub fn new(
        width: u32,
        height: u32,
        surface_formats: &[F],
        depth_format: F,
        view_position: [u32; 3],
        view_proj: [[u32; 4]; 4],
        model: Model,
    ) -> (out: Result<(State<F>, Setup<F>), InitError>)
        ensures
            surface_formats@.len() == 0 ==> out == Err::<(State<F>, Setup<F>), InitError>(
                InitError::NoSurfaceFormat,
            ),
            surface_formats@.len() > 0 ==> out is Ok,
            out matches Ok((driver, setup)) ==> {
                &&& driver@.viewport == Viewport::of(surface_formats@[0], width, height)
                &&& driver@.viewport.coherent()
                &&& driver@.clear_color == ClearColor::initial()
                &&& !driver@.mouse_pressed
                &&& driver@.controller == CameraController::at_rest(
                    CAMERA_SPEED,
                    CAMERA_SENSITIVITY,
                )
                &&& driver@.camera == CameraUniform::looking(view_position, view_proj)
                &&& driver@.light == LightUniform::initial()
                &&& is_grid(
                    driver@.instances,
                    NUM_INSTANCES_PER_ROW as int,
                    SPACE_BETWEEN as int,
                )
                &&& driver@.model == model@
                &&& setup.surface == driver@.viewport.config
                &&& setup.depth == driver@.viewport.depth
                &&& setup.pipelines.describes(surface_formats@[0], depth_format)
                &&& setup_buffers_match(
                    setup.buffers@,
                    driver@.camera,
                    driver@.light,
                    model@.meshes,
                )
            },
    {
        if surface_formats.len() == 0 {
            return Err(InitError::NoSurfaceFormat);
        }
        let surface_format = surface_formats[0];
        let viewport = Viewport::new(surface_format, width, height);
        let instances = InstanceTable::grid(NUM_INSTANCES_PER_ROW, SPACE_BETWEEN);
        let mut camera_uniform = CameraUniform::new();
        camera_uniform.update_view_proj(view_position, view_proj);
        let light_uniform = LightUniform::new();
        let mut buffers: Vec<BufferInit> = Vec::new();
        buffers.push(
            BufferInit {
                target: BufferId::Camera,
                usage: BufferUsage::Uniform,
                contents: camera_uniform.to_bytes(),
            },
        );
        buffers.push(
            BufferInit {
                target: BufferId::Light,
                usage: BufferUsage::Uniform,
                contents: light_uniform.to_bytes(),
            },
        );
        let meshes = model.meshes();
        let mut i: usize = 0;
        while i < meshes.len()
            invariant
                i <= meshes@.len(),
                buffers@.len() == 2 + 2 * i,
                buffers@[0].holds(
                    BufferId::Camera,
                    BufferUsage::Uniform,
                    pack(camera_uniform.words()),
                ),
                buffers@[1].holds(
                    BufferId::Light,
                    BufferUsage::Uniform,
                    pack(light_uniform.words()),
                ),
                forall|k: int|
                    0 <= k < i ==> (#[trigger] buffers@[2 + 2 * k]).holds(
                        BufferId::Vertices(k as usize),
                        BufferUsage::Vertex,
                        pack(vertex_buffer_words(meshes@[k].vertices@)),
                    ),
                forall|k: int|
                    0 <= k < i ==> (#[trigger] buffers@[3 + 2 * k]).holds(
                        BufferId::Indices(k as usize),
                        BufferUsage::Index,
                        pack(meshes@[k].indices@),
                    ),
            decreases meshes@.len() - i,
        {
            let mesh = &meshes[i];
            let ghost before = buffers@;
            buffers.push(
                BufferInit {
                    target: BufferId::Vertices(i),
                    usage: BufferUsage::Vertex,
                    contents: vertex_buffer_bytes(mesh.vertices.as_slice()),
                },
            );
            buffers.push(
                BufferInit {
                    target: BufferId::Indices(i),
                    usage: BufferUsage::Index,
                    contents: index_buffer_bytes(mesh.indices.as_slice()),
                },
            );
            proof {
                assert forall|k: int| 0 <= k < i + 1 implies (#[trigger] buffers@[2 + 2 * k]).holds(
                    BufferId::Vertices(k as usize),
                    BufferUsage::Vertex,
                    pack(vertex_buffer_words(meshes@[k].vertices@)),
                ) by {
                    if k < i {
                        assert(buffers@[2 + 2 * k] == before[2 + 2 * k]);
                    }
                }
                assert forall|k: int| 0 <= k < i + 1 implies (#[trigger] buffers@[3 + 2 * k]).holds(
                    BufferId::Indices(k as usize),
                    BufferUsage::Index,
                    pack(meshes@[k].indices@),
                ) by {
                    if k < i {
                        assert(buffers@[3 + 2 * k] == before[3 + 2 * k]);
                    }
                }
            }
            i = i + 1;
        }
        let setup = Setup {
            surface: viewport.config,
            depth: viewport.depth,
            pipelines: PipelineSet::build(surface_format, depth_format),
            buffers,
        };
        let driver: State<F> = State {
            viewport,
            clear_color: ClearColor {
                r: Channel::Value(TENTH_WIDE),
                g: Channel::Value(TWO_TENTHS_WIDE),
                b: Channel::Value(THREE_TENTHS_WIDE),
                a: Channel::Value(ONE_WIDE),
            },
            mouse_pressed: false,
            controller: CameraController::new(CAMERA_SPEED, CAMERA_SENSITIVITY),
            camera_uniform,
            light_uniform,
            instances,
            model,
        };
        Ok((driver, setup))
    }

    /// The instance buffer to create: the packed form of the instances,
    /// which `instance_data` must hold one for one.
    pub fn instance_buffer(&self, instance_data: &[InstanceRaw]) -> (out: Result<
        BufferInit,
        InitError,
    >)
        ensures
            instance_data@.len() != self@.instances.len() ==> out == Err::<BufferInit, InitError>(
                InitError::InstanceCountMismatch,
            ),
            instance_data@.len() == self@.instances.len() ==> (out matches Ok(buffer)
                && buffer.holds(
                BufferId::Instances,
                BufferUsage::Vertex,
                pack(instance_buffer_words(instance_data@)),
            )),
    {
        if instance_data.len() != self.instances.instances().len() {
            return Err(InitError::InstanceCountMismatch);
        }
        Ok(
            BufferInit {
                target: BufferId::Instances,
                usage: BufferUsage::Vertex,
                contents: instance_buffer_bytes(instance_data),
            },
        )
    }

    /// The dimensions the driver keeps. They always agree with each other.
    pub fn viewport(&self) -> (viewport: Viewport<F>)
        ensures
            viewport == self@.viewport,
            viewport.coherent(),
    {
        proof {
            use_type_invariant(self);
        }
        self.viewport
    }

    /// The colour the next frame is cleared to.
    pub fn clear_color(&self) -> (color: ClearColor)
        ensures
            color == self@.clear_color,
    {
        self.clear_color
    }

    /// Whether the left mouse button is held down.
    pub fn mouse_pressed(&self) -> (pressed: bool)
        ensures
            pressed == self@.mouse_pressed,
    {
        self.mouse_pressed
    }

    /// What the input devices have asked of the camera since the last
    /// update.
    pub fn controller(&self) -> (controller: CameraController)
        ensures
            controller == self@.controller,
    {
        self.controller
    }

    /// The camera block as last updated.
    pub fn camera_uniform(&self) -> (block: CameraUniform)
        ensures
            block == self@.camera,
    {
        self.camera_uniform
    }

    /// The light block as last updated.
    pub fn light_uniform(&self) -> (block: LightUniform)
        ensures
            block == self@.light,
    {
        self.light_uniform
    }

    /// The instances of the scene.
    pub fn instances(&self) -> (table: &InstanceTable)
        ensures
            table@ == self@.instances,
    {
        &self.instances
    }

    /// The model of the scene.
    pub fn model(&self) -> (model: &Model)
        ensures
            model@ == self@.model,
    {
        &self.model
    }

    /// Takes over a new size of the window.
    ///
    /// If both sides are positive, the size becomes the size of the
    /// window, of the surface and of the projection, and the surface is to
    /// be configured again. If one is zero, none of these changes and the
    /// surface is left alone. Either way the depth buffer is to be built
    /// anew, at the size the surface then has.
    pub fn resize(&mut self, width: u32, height: u32) -> (plan: ResizePlan<F>)
        ensures
            final(self)@ == (DriverView {
                viewport: old(self)@.viewport.resized(width, height),
                ..old(self)@
            }),
            final(self)@.viewport.coherent(),
            plan == old(self)@.viewport.resize_plan(width, height),
            plan.depth.width == final(self)@.viewport.config.width,
            plan.depth.height == final(self)@.viewport.config.height,
    {
        proof {
            use_type_invariant(&*self);
        }
        let mut viewport = self.viewport;
        let plan = viewport.resize(width, height);
        self.viewport = viewport;
        plan
    }

    /// The state after a window event, and whether the event was used up.
    pub open spec fn after_input(state: DriverView<F>, event: WindowEvent) -> (
        DriverView<F>,
        bool,
    ) {
        match event {
            WindowEvent::CursorMoved { x, y } => (
                DriverView {
                    clear_color: ClearColor::following(
                        x,
                        y,
                        state.viewport.size.width,
                        state.viewport.size.height,
                    ),
                    ..state
                },
                true,
            ),
            WindowEvent::KeyboardInput { key: Some(key), pressed } => match key.binding() {
                Some(direction) => (
                    DriverView {
                        controller: state.controller.with_key(direction, pressed),
                        ..state
                    },
                    true,
                ),
                None => (state, false),
            },
            WindowEvent::MouseWheel { delta } => (
                DriverView {
                    controller: CameraController { scroll: Some(delta), ..state.controller },
                    ..state
                },
                true,
            ),
            WindowEvent::MouseInput { left: true, pressed } => (
                DriverView { mouse_pressed: pressed, ..state },
                true,
            ),
            _ => (state, false),
        }
    }

    /// Handles a window event and says whether it was used up.
    ///
    /// A move of the pointer sets the clear colour after the pointer's
    /// place in the window. A key that moves the camera and the wheel go to
    /// the camera controller. The left mouse button is remembered as held
    /// or released. All of these are used up; nothing else is.
    pub fn input(&mut self, event: &WindowEvent) -> (used: bool)
        ensures
            (final(self)@, used) == Self::after_input(old(self)@, *event),
    {
        proof {
            use_type_invariant(&*self);
        }
        match event {
            WindowEvent::CursorMoved { x, y } => {
                self.clear_color = ClearColor {
                    r: Channel::Ratio { numerator: *x, denominator: self.viewport.size.width },
                    g: Channel::Ratio { numerator: *y, denominator: self.viewport.size.height },
                    b: Channel::Value(THREE_TENTHS_WIDE),
                    a: Channel::Value(ONE_WIDE),
                };
                true
            },
            WindowEvent::KeyboardInput { key: Some(key), pressed } => match key.camera_key() {
                Some(direction) => {
                    let mut controller = self.controller;
                    let used = controller.process_keyboard(direction, *pressed);
                    self.controller = controller;
                    used
                },
                None => false,
            },
            WindowEvent::MouseWheel { delta } => {
                let mut controller = self.controller;
                controller.process_scroll(*delta);
                self.controller = controller;
                true
            },
            WindowEvent::MouseInput { left: true, pressed } => {
                self.mouse_pressed = *pressed;
                true
            },
            _ => false,
        }
    }

    /// The state after an event of the event loop, and what the loop is to
    /// do.
    ///
    /// Motion of the mouse turns the camera while the left button is held.
    /// An event of the driver's own window is input first; if that does not
    /// use it up, it may end the loop or resize. A request to redraw the
    /// driver's own window makes a frame due, and when all events are
    /// handled the next redraw is asked for. Events of other windows are
    /// passed over.
    pub open spec fn after_event(state: DriverView<F>, event: Event) -> (
        DriverView<F>,
        LoopAction<F>,
    ) {
        match event {
            Event::MouseMotion { dx, dy } => if state.mouse_pressed {
                (
                    DriverView {
                        controller: CameraController {
                            rotate_horizontal: dx,
                            rotate_vertical: dy,
                            ..state.controller
                        },
                        ..state
                    },
                    LoopAction::Nothing,
                )
            } else {
                (state, LoopAction::Nothing)
            },
            Event::Window { own_window: true, event } => {
                let (next, used) = Self::after_input(state, event);
                if used {
                    (next, LoopAction::Nothing)
                } else {
                    match unused_event_action(event) {
                        WindowAction::Exit => (next, LoopAction::Exit),
                        WindowAction::Resize { width, height } => (
                            DriverView { viewport: next.viewport.resized(width, height), ..next },
                            LoopAction::Resize(next.viewport.resize_plan(width, height)),
                        ),
                        WindowAction::Nothing => (next, LoopAction::Nothing),
                    }
                }
            },
            Event::RedrawRequested { own_window: true } => (state, LoopAction::Redraw),
            Event::MainEventsCleared => (state, LoopAction::RequestRedraw),
            _ => (state, LoopAction::Nothing),
        }
    }

    /// Handles an event of the event loop and says what the loop is to do.
    pub fn handle_event(&mut self, event: &Event) -> (action: LoopAction<F>)
        ensures
            (final(self)@, action) == Self::after_event(old(self)@, *event),
    {
        proof {
            use_type_invariant(&*self);
        }
        match event {
            Event::MouseMotion { dx, dy } => {
                if self.mouse_pressed {
                    let mut controller = self.controller;
                    controller.process_mouse(*dx, *dy);
                    self.controller = controller;
                }
                LoopAction::Nothing
            },
            Event::Window { own_window: true, event } => {
                if self.input(event) {
                    LoopAction::Nothing
                } else {
                    match window_action(event) {
                        WindowAction::Exit => LoopAction::Exit,
                        WindowAction::Resize { width, height } => LoopAction::Resize(
                            self.resize(width, height),
                        ),
                        WindowAction::Nothing => LoopAction::Nothing,
                    }
                }
            },
            Event::RedrawRequested { own_window: true } => LoopAction::Redraw,
            Event::MainEventsCleared => LoopAction::RequestRedraw,
            _ => LoopAction::Nothing,
        }
    }

    /// What a tick of `nanos` nanoseconds has to work out before
    /// [`State::update`]: the account of the camera controller, to be
    /// carried out on the camera, and the place of the light with the angle
    /// by which it is to turn about the vertical axis.
    pub fn tick(&self, nanos: u64) -> (tick: Tick)
        ensures
            tick == (Tick {
                controller: self@.controller,
                light_position: self@.light.position,
                light_angle: LightUniform::orbit_angle(nanos as nat) as u128,
            }),
    {
        Tick {
            controller: self.controller,
            light_position: self.light_uniform.position,
            light_angle: LightUniform::orbit_step(nanos),
        }
    }

    /// Takes over what a tick computed: the viewer's position and the
    /// product of projection and view for the camera block, and the light's
    /// new position. Both blocks are to be written to the start of their
    /// buffers, the camera first, before anything of the frame is drawn.
    /// What mouse and wheel had asked of the camera counts as carried out.
    pub fn update(
        &mut self,
        view_position: [u32; 3],
        view_proj: [[u32; 4]; 4],
        light_position: [u32; 3],
    ) -> (writes: Vec<BufferWrite>)
        ensures
            final(self)@ == (DriverView {
                controller: old(self)@.controller.drained(),
                camera: CameraUniform::looking(view_position, view_proj),
                light: LightUniform { position: light_position, color: old(self)@.light.color },
                ..old(self)@
            }),
            writes@.len() == 2,
            writes@[0].fills(BufferId::Camera, pack(final(self)@.camera.words())),
            writes@[1].fills(BufferId::Light, pack(final(self)@.light.words())),
    {
        proof {
            use_type_invariant(&*self);
        }
        let mut controller = self.controller;
        controller.drain();
        self.controller = controller;
        let mut camera = self.camera_uniform;
        camera.update_view_proj(view_position, view_proj);
        self.camera_uniform = camera;
        self.light_uniform = self.light_uniform.moved_to(light_position);
        let camera_bytes = self.camera_uniform.to_bytes();
        let light_bytes = self.light_uniform.to_bytes();
        let mut writes: Vec<BufferWrite> = Vec::new();
        writes.push(BufferWrite { target: BufferId::Camera, offset: 0, data: camera_bytes });
        writes.push(BufferWrite { target: BufferId::Light, offset: 0, data: light_bytes });
        writes
    }

    /// Plans a frame, given how the acquisition of its image went.
    ///
    /// If no image could be acquired, the error is handed on and nothing is
    /// to be done. Otherwise the frame is encoded, submitted and presented:
    /// every mesh is drawn once as the light and then once for all
    /// instances, each mesh with its own material, which is one of the
    /// materials of the model.
    pub fn render(&self, acquisition: Result<(), SurfaceError>) -> (out: Result<
        Vec<FrameAction>,
        SurfaceError,
    >)
        ensures
            self@.model.well_formed(),
            match acquisition {
                Err(error) => out == Err::<Vec<FrameAction>, SurfaceError>(error),
                Ok(_) => out matches Ok(actions) && planned_frame(
                    actions@,
                    self@.clear_color,
                    self@.model.meshes,
                    self@.instances.len() as u32,
                ),
            },
    {
        let meshes = self.model.meshes();
        match acquisition {
            Err(error) => Err(error),
            Ok(_) => Ok(plan_frame(self.clear_color, meshes.as_slice(), self.instances.count())),
        }
    }

    /// The state after `error` kept a frame from being drawn, and how to go
    /// on. The error decides by the phase it takes the frame to.
    pub open spec fn after_failure(state: DriverView<F>, error: SurfaceError) -> (
        DriverView<F>,
        Recovery<F>,
    ) {
        match FramePhase::Idle.after(FrameStep::Acquire(Err(error))) {
            Some(FramePhase::Lost) => (
                DriverView {
                    viewport: state.viewport.resized(
                        state.viewport.size.width,
                        state.viewport.size.height,
                    ),
                    ..state
                },
                Recovery::Resized(
                    state.viewport.resize_plan(
                        state.viewport.size.width,
                        state.viewport.size.height,
                    ),
                ),
            ),
            Some(FramePhase::Fatal) => (state, Recovery::Exit),
            _ => (state, Recovery::Report),
        }
    }

    /// Decides how to go on after `error` kept a frame from being drawn.
    ///
    /// The error is what takes the frame out of its idle phase: after a
    /// lost surface the driver resizes to the size it has, which configures
    /// the surface again; when memory ran out the loop is to end; any other
    /// error is reported and the next frame tried.
    pub fn recover(&mut self, error: SurfaceError) -> (recovery: Recovery<F>)
        ensures
            (final(self)@, recovery) == Self::after_failure(old(self)@, error),
    {
        proof {
            use_type_invariant(&*self);
        }
        match FramePhase::Idle.advance(FrameStep::Acquire(Err(error))) {
            Some(FramePhase::Lost) => {
                let size = self.viewport.size;
                let plan = self.resize(size.width, size.height);
                Recovery::Resized(plan)
            },
            Some(FramePhase::Fatal) => Recovery::Exit,
            _ => Recovery::Report,
        }
    }
}

} // verus!
