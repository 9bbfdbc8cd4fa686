use scene_renderer::controller::{CameraController, CameraKey, ScrollDelta};
use scene_renderer::device::{BindGroupId, BufferId, BufferInit, BufferUsage};
use scene_renderer::driver::{State, InitError, Recovery, Setup};
use scene_renderer::event::{window_action, Event, Key, LoopAction, WindowAction, WindowEvent};
use scene_renderer::frame::{Channel, ClearColor, FrameAction, RenderCommand};
use scene_renderer::phase::SurfaceError;
use scene_renderer::viewport::{PresentMode, ResizePlan, Size, SurfaceConfig, Viewport};
use scene_renderer::geometry::{
    index_buffer_bytes, load_model, vertex_buffer_bytes, Material, Model, RawMesh,
};
use scene_renderer::instance::{instance_buffer_bytes, InstanceRaw, InstanceTable};
use scene_renderer::pipeline::{PipelineId, PipelineSet};
use scene_renderer::scalar::ONE;
use scene_renderer::uniform::{CameraUniform, LightUniform};

fn cube(meshes: usize) -> Model {
    let raw: Vec<RawMesh> = (0..meshes)
        .map(|i| RawMesh {
            positions: (0..9).map(|k| (k as f32).to_bits()).collect(),
            texcoords: vec![0; 6],
            normals: vec![ONE; 9],
            indices: vec![0, 1, 2].repeat(12 * (i + 1)),
            material_id: Some(0),
        })
        .collect();
    let material = Material {
        name: "cube".to_string(),
        diffuse_texture: "cube-diffuse.jpg".to_string(),
        normal_texture: "cube-normal.png".to_string(),
    };
    load_model("cube.obj", &raw, vec![material]).unwrap()
}

fn raws(n: usize) -> Vec<InstanceRaw> {
    (0..n)
        .map(|i| InstanceRaw { model: [[i as u32; 4]; 4], normal: [[!(i as u32); 3]; 3] })
        .collect()
}

fn position() -> [u32; 3] {
    [0.0f32.to_bits(), 5.0f32.to_bits(), 10.0f32.to_bits()]
}

fn matrix(seed: u32) -> [[u32; 4]; 4] {
    let mut m = [[0u32; 4]; 4];
    for c in 0..4 {
        for r in 0..4 {
            m[c][r] = seed.wrapping_mul(31).wrapping_add((4 * c + r) as u32);
        }
    }
    m
}

fn setup(
    width: u32,
    height: u32,
    meshes: usize,
) -> (State<&'static str>, Setup<&'static str>) {
    State::new(
        width,
        height,
        &["bgra8unorm-srgb", "rgba8unorm"],
        "depth32float",
        position(),
        matrix(1),
        cube(meshes),
    )
    .unwrap()
}

fn draws(commands: &[RenderCommand]) -> Vec<(PipelineId, u32, u32, u32)> {
    let mut pipeline = None;
    let mut out = Vec::new();
    for command in commands {
        match command {
            RenderCommand::SetPipeline(id) => pipeline = Some(*id),
            RenderCommand::DrawIndexed { end_index, first_instance, end_instance, .. } => {
                out.push((pipeline.unwrap(), *end_index, *first_instance, *end_instance))
            }
            _ => {}
        }
    }
    out
}

#[test]
fn new_driver_takes_the_size_of_the_window_for_everything() {
    let (driver, setup) = setup(800, 600, 1);
    let size = Size { width: 800, height: 600 };
    let config = SurfaceConfig {
        format: "bgra8unorm-srgb",
        width: 800,
        height: 600,
        present_mode: PresentMode::Fifo,
    };
    assert_eq!(driver.viewport(), Viewport { size, config, projection: size, depth: size });
    assert_eq!(setup.surface, config);
    assert_eq!(setup.depth, size);
    assert_eq!(setup.surface.format, "bgra8unorm-srgb");
    assert_eq!(setup.pipelines, PipelineSet::build("bgra8unorm-srgb", "depth32float"));
}

#[test]
fn new_driver_starts_with_the_given_camera_the_white_light_and_a_dark_blue() {
    let (driver, _) = setup(800, 600, 1);
    let mut camera = CameraUniform::new();
    camera.update_view_proj(position(), matrix(1));
    assert_eq!(driver.camera_uniform(), camera);
    assert_eq!(driver.light_uniform(), LightUniform::new());
    assert!(!driver.mouse_pressed());
    let color = driver.clear_color();
    let value = |c: Channel| match c {
        Channel::Value(bits) => f64::from_bits(bits),
        Channel::Ratio { .. } => panic!("a ratio"),
    };
    assert_eq!((value(color.r), value(color.g)), (0.1, 0.2));
    assert_eq!((value(color.b), value(color.a)), (0.3, 1.0));
    assert_eq!(driver.instances().count(), 100);
    assert_eq!(driver.model().meshes().len(), 1);
}

#[test]
fn new_driver_places_the_instances_of_the_scene() {
    let (driver, _) = setup(800, 600, 1);
    assert_eq!(driver.instances().count(), 100);
    assert_eq!(driver.instances().instances(), InstanceTable::grid(10, 3).instances());
}

#[test]
fn new_driver_lists_the_buffers_with_their_first_contents() {
    let (driver, setup) = setup(640, 480, 2);
    let meshes = driver.model().meshes();
    let expected = vec![
        BufferInit {
            target: BufferId::Camera,
            usage: BufferUsage::Uniform,
            contents: driver.camera_uniform().to_bytes(),
        },
        BufferInit {
            target: BufferId::Light,
            usage: BufferUsage::Uniform,
            contents: LightUniform::new().to_bytes(),
        },
        BufferInit {
            target: BufferId::Vertices(0),
            usage: BufferUsage::Vertex,
            contents: vertex_buffer_bytes(&meshes[0].vertices),
        },
        BufferInit {
            target: BufferId::Indices(0),
            usage: BufferUsage::Index,
            contents: index_buffer_bytes(&meshes[0].indices),
        },
        BufferInit {
            target: BufferId::Vertices(1),
            usage: BufferUsage::Vertex,
            contents: vertex_buffer_bytes(&meshes[1].vertices),
        },
        BufferInit {
            target: BufferId::Indices(1),
            usage: BufferUsage::Index,
            contents: index_buffer_bytes(&meshes[1].indices),
        },
    ];
    assert_eq!(setup.buffers, expected);
    assert_eq!(setup.buffers[0].contents.len(), 80);
    assert_eq!(setup.buffers[1].contents.len(), 32);
    assert_eq!(setup.buffers[2].contents.len(), 3 * 32);
    assert_eq!(setup.buffers[3].contents.len(), 36 * 4);
}

#[test]
fn new_driver_needs_a_surface_format() {
    let formats: [&str; 0] = [];
    let out = State::new(800, 600, &formats, "depth32float", position(), matrix(1), cube(1));
    assert_eq!(out.err(), Some(InitError::NoSurfaceFormat));
}

#[test]
fn instance_buffer_holds_a_hundred_bytes_for_each_instance() {
    let (driver, _) = setup(800, 600, 1);
    let buffer = driver.instance_buffer(&raws(100)).unwrap();
    assert_eq!(
        buffer,
        BufferInit {
            target: BufferId::Instances,
            usage: BufferUsage::Vertex,
            contents: instance_buffer_bytes(&raws(100)),
        }
    );
    assert_eq!(buffer.contents.len(), 100 * 100);
    assert_eq!(buffer.contents.len() / 100, driver.instances().count() as usize);
}

#[test]
fn instance_buffer_needs_one_packed_instance_for_each_instance() {
    let (driver, _) = setup(800, 600, 1);
    for n in [0usize, 99, 101] {
        assert_eq!(driver.instance_buffer(&raws(n)), Err(InitError::InstanceCountMismatch));
    }
}

#[test]
fn surface_keeps_the_first_supported_format_across_resizes() {
    let (mut driver, setup) = setup(800, 600, 1);
    assert_eq!(setup.surface.format, "bgra8unorm-srgb");
    assert_eq!(driver.viewport().config.format, "bgra8unorm-srgb");
    let plan = driver.resize(1024, 768);
    assert_eq!(plan.configure.unwrap().format, "bgra8unorm-srgb");
    driver.resize(0, 0);
    assert_eq!(driver.viewport().config.format, "bgra8unorm-srgb");
}

#[test]
fn resize_takes_over_a_positive_size() {
    let (mut driver, _) = setup(800, 600, 1);
    let plan = driver.resize(1024, 768);
    let size = Size { width: 1024, height: 768 };
    let config = SurfaceConfig {
        format: "bgra8unorm-srgb",
        width: 1024,
        height: 768,
        present_mode: PresentMode::Fifo,
    };
    assert_eq!(plan, ResizePlan { configure: Some(config), depth: size });
    assert_eq!(driver.viewport(), Viewport { size, config, projection: size, depth: size });
}

#[test]
fn resize_to_zero_keeps_the_size_and_still_rebuilds_the_depth_buffer() {
    let (mut driver, _) = setup(800, 600, 1);
    let before = driver.viewport();
    let plan = driver.resize(0, 0);
    assert_eq!(plan.configure, None);
    assert_eq!(plan.depth, Size { width: 800, height: 600 });
    assert_eq!(driver.viewport(), before);
}

#[test]
fn resize_with_one_side_zero_is_rejected_too() {
    let (mut driver, _) = setup(800, 600, 1);
    let before = driver.viewport();
    for (width, height) in [(0, 480), (640, 0)] {
        let plan = driver.resize(width, height);
        assert_eq!(plan, ResizePlan { configure: None, depth: Size { width: 800, height: 600 } });
        assert_eq!(driver.viewport(), before);
    }
}

#[test]
fn resize_leaves_everything_but_the_viewport_alone() {
    let (mut driver, _) = setup(800, 600, 1);
    driver.input(&WindowEvent::MouseInput { left: true, pressed: true });
    let camera = driver.camera_uniform();
    let light = driver.light_uniform();
    let color = driver.clear_color();
    driver.resize(320, 200);
    assert_eq!(driver.camera_uniform(), camera);
    assert_eq!(driver.light_uniform(), light);
    assert_eq!(driver.clear_color(), color);
    assert!(driver.mouse_pressed());
    assert_eq!(driver.instances().count(), 100);
}

#[test]
fn depth_buffer_always_has_the_size_of_the_surface() {
    let (mut driver, _) = setup(800, 600, 1);
    for (width, height) in [(1, 1), (0, 0), (1920, 1080), (0, 5), (u32::MAX, 7), (3, 0)] {
        let plan = driver.resize(width, height);
        let viewport = driver.viewport();
        assert_eq!(viewport.depth.width, viewport.config.width);
        assert_eq!(viewport.depth.height, viewport.config.height);
        assert_eq!(plan.depth, viewport.depth);
        assert_eq!(viewport.projection, viewport.size);
    }
}

#[test]
fn pointer_moves_set_the_clear_colour_and_are_used_up() {
    let (mut driver, _) = setup(800, 600, 1);
    let (x, y) = (200.0f64, 150.0f64);
    assert!(driver.input(&WindowEvent::CursorMoved { x: x.to_bits(), y: y.to_bits() }));
    let color = driver.clear_color();
    assert_eq!(color.r, Channel::Ratio { numerator: x.to_bits(), denominator: 800 });
    assert_eq!(color.g, Channel::Ratio { numerator: y.to_bits(), denominator: 600 });
    assert_eq!(color.b, Channel::Value(0.3f64.to_bits()));
    assert_eq!(color.a, Channel::Value(1.0f64.to_bits()));
}

#[test]
fn clear_colour_keeps_the_size_the_window_had_when_the_pointer_moved() {
    let (mut driver, _) = setup(800, 600, 1);
    driver.input(&WindowEvent::CursorMoved { x: 1.0f64.to_bits(), y: 2.0f64.to_bits() });
    driver.resize(400, 300);
    assert_eq!(
        driver.clear_color().r,
        Channel::Ratio { numerator: 1.0f64.to_bits(), denominator: 800 }
    );
    driver.input(&WindowEvent::CursorMoved { x: 1.0f64.to_bits(), y: 2.0f64.to_bits() });
    assert_eq!(
        driver.clear_color().g,
        Channel::Ratio { numerator: 2.0f64.to_bits(), denominator: 300 }
    );
}

#[test]
fn camera_keys_go_to_the_controller_and_are_used_up() {
    let (mut driver, _) = setup(800, 600, 1);
    let rest = driver.controller();
    assert!(driver.input(&WindowEvent::KeyboardInput {
        key: Some(Key::W),
        pressed: true
    }));
    assert_eq!(driver.controller(), CameraController { forward: true, ..rest });
    assert!(driver.input(&WindowEvent::KeyboardInput {
        key: Some(Key::LShift),
        pressed: true
    }));
    assert_eq!(driver.controller(), CameraController { forward: true, down: true, ..rest });
    assert!(driver.input(&WindowEvent::KeyboardInput {
        key: Some(Key::W),
        pressed: false
    }));
    assert_eq!(driver.controller(), CameraController { down: true, ..rest });
}

#[test]
fn keys_move_the_camera_by_their_binding() {
    let bound = [
        (Key::W, CameraKey::Forward),
        (Key::Up, CameraKey::Forward),
        (Key::S, CameraKey::Backward),
        (Key::Down, CameraKey::Backward),
        (Key::A, CameraKey::Left),
        (Key::Left, CameraKey::Left),
        (Key::D, CameraKey::Right),
        (Key::Right, CameraKey::Right),
        (Key::Space, CameraKey::Up),
        (Key::LShift, CameraKey::Down),
    ];
    for (key, direction) in bound {
        assert_eq!(key.camera_key(), Some(direction));
        let (mut driver, _) = setup(800, 600, 1);
        let mut expected = driver.controller();
        expected.process_keyboard(direction, true);
        assert!(driver.input(&WindowEvent::KeyboardInput { key: Some(key), pressed: true }));
        assert_eq!(driver.controller(), expected);
    }
    assert_eq!(Key::Escape.camera_key(), None);
    assert_eq!(Key::Other.camera_key(), None);
}

#[test]
fn other_keys_are_not_used_up() {
    let (mut driver, _) = setup(800, 600, 1);
    let rest = driver.controller();
    for key in [Some(Key::Escape), Some(Key::Other), None] {
        for pressed in [true, false] {
            assert!(!driver.input(&WindowEvent::KeyboardInput { key, pressed }));
        }
    }
    assert_eq!(driver.controller(), rest);
}

#[test]
fn wheel_goes_to_the_controller_and_is_used_up() {
    let (mut driver, _) = setup(800, 600, 1);
    let delta = ScrollDelta::Lines(1.0f32.to_bits());
    assert!(driver.input(&WindowEvent::MouseWheel { delta }));
    assert_eq!(driver.controller().scroll, Some(delta));
    let later = ScrollDelta::Pixels((-12.5f64).to_bits());
    assert!(driver.input(&WindowEvent::MouseWheel { delta: later }));
    assert_eq!(driver.controller().scroll, Some(later));
}

#[test]
fn left_button_is_remembered() {
    let (mut driver, _) = setup(800, 600, 1);
    assert!(driver.input(&WindowEvent::MouseInput { left: true, pressed: true }));
    assert!(driver.mouse_pressed());
    assert!(!driver.input(&WindowEvent::MouseInput { left: false, pressed: false }));
    assert!(driver.mouse_pressed());
    assert!(driver.input(&WindowEvent::MouseInput { left: true, pressed: false }));
    assert!(!driver.mouse_pressed());
}

#[test]
fn other_window_events_are_not_for_the_driver() {
    let (mut driver, _) = setup(800, 600, 1);
    let before =
        (driver.viewport(), driver.clear_color(), driver.mouse_pressed(), driver.controller());
    for event in [
        WindowEvent::CloseRequested,
        WindowEvent::Resized { width: 10, height: 10 },
        WindowEvent::ScaleFactorChanged { width: 10, height: 10 },
        WindowEvent::Other,
    ] {
        assert!(!driver.input(&event));
    }
    assert_eq!(
        (driver.viewport(), driver.clear_color(), driver.mouse_pressed(), driver.controller()),
        before
    );
}

#[test]
fn unused_window_events_close_or_resize() {
    assert_eq!(window_action(&WindowEvent::CloseRequested), WindowAction::Exit);
    assert_eq!(
        window_action(&WindowEvent::KeyboardInput { key: Some(Key::Escape), pressed: true }),
        WindowAction::Exit
    );
    assert_eq!(
        window_action(&WindowEvent::KeyboardInput { key: Some(Key::Escape), pressed: false }),
        WindowAction::Nothing
    );
    assert_eq!(
        window_action(&WindowEvent::KeyboardInput { key: Some(Key::Other), pressed: true }),
        WindowAction::Nothing
    );
    assert_eq!(
        window_action(&WindowEvent::KeyboardInput { key: None, pressed: true }),
        WindowAction::Nothing
    );
    assert_eq!(
        window_action(&WindowEvent::Resized { width: 640, height: 480 }),
        WindowAction::Resize { width: 640, height: 480 }
    );
    assert_eq!(
        window_action(&WindowEvent::ScaleFactorChanged { width: 1280, height: 960 }),
        WindowAction::Resize { width: 1280, height: 960 }
    );
    assert_eq!(
        window_action(&WindowEvent::MouseWheel { delta: ScrollDelta::Lines(0) }),
        WindowAction::Nothing
    );
    assert_eq!(window_action(&WindowEvent::Other), WindowAction::Nothing);
}

#[test]
fn mouse_motion_turns_the_camera_only_while_the_button_is_held() {
    let (mut driver, _) = setup(800, 600, 1);
    let rest = driver.controller();
    let motion = Event::MouseMotion { dx: 3.0f64.to_bits(), dy: (-4.0f64).to_bits() };
    assert_eq!(driver.handle_event(&motion), LoopAction::Nothing);
    assert_eq!(driver.controller(), rest);
    driver.input(&WindowEvent::MouseInput { left: true, pressed: true });
    assert_eq!(driver.handle_event(&motion), LoopAction::Nothing);
    assert_eq!(
        driver.controller(),
        CameraController {
            rotate_horizontal: 3.0f64.to_bits(),
            rotate_vertical: (-4.0f64).to_bits(),
            ..rest
        }
    );
}

#[test]
fn window_events_are_input_first_and_may_then_close_or_resize() {
    let (mut driver, _) = setup(800, 600, 1);
    let own = |event| Event::Window { own_window: true, event };
    assert_eq!(
        driver.handle_event(&own(WindowEvent::CursorMoved { x: 0, y: 0 })),
        LoopAction::Nothing
    );
    assert_eq!(driver.handle_event(&own(WindowEvent::CloseRequested)), LoopAction::Exit);
    assert_eq!(
        driver.handle_event(&own(WindowEvent::KeyboardInput {
            key: Some(Key::Escape),
            pressed: true
        })),
        LoopAction::Exit
    );
    assert_eq!(
        driver.handle_event(&own(WindowEvent::KeyboardInput {
            key: Some(Key::A),
            pressed: true
        })),
        LoopAction::Nothing
    );
    assert!(driver.controller().left);
    let size = Size { width: 640, height: 480 };
    let config = SurfaceConfig {
        format: "bgra8unorm-srgb",
        width: 640,
        height: 480,
        present_mode: PresentMode::Fifo,
    };
    assert_eq!(
        driver.handle_event(&own(WindowEvent::Resized { width: 640, height: 480 })),
        LoopAction::Resize(ResizePlan { configure: Some(config), depth: size })
    );
    assert_eq!(driver.viewport(), Viewport { size, config, projection: size, depth: size });
    assert_eq!(
        driver.handle_event(&own(WindowEvent::ScaleFactorChanged { width: 0, height: 0 })),
        LoopAction::Resize(ResizePlan { configure: None, depth: size })
    );
    assert_eq!(driver.viewport().size, size);
    assert_eq!(driver.handle_event(&own(WindowEvent::Other)), LoopAction::Nothing);
}

#[test]
fn events_of_other_windows_are_passed_over() {
    let (mut driver, _) = setup(800, 600, 1);
    let before = (driver.viewport(), driver.clear_color(), driver.controller());
    for event in [
        WindowEvent::CloseRequested,
        WindowEvent::Resized { width: 1, height: 1 },
        WindowEvent::CursorMoved { x: 0, y: 0 },
        WindowEvent::KeyboardInput { key: Some(Key::Space), pressed: true },
    ] {
        assert_eq!(
            driver.handle_event(&Event::Window { own_window: false, event }),
            LoopAction::Nothing
        );
    }
    assert_eq!(
        driver.handle_event(&Event::RedrawRequested { own_window: false }),
        LoopAction::Nothing
    );
    assert_eq!((driver.viewport(), driver.clear_color(), driver.controller()), before);
}

#[test]
fn redraw_requests_and_cleared_events_drive_the_frames() {
    let (mut driver, _) = setup(800, 600, 1);
    let redraw = Event::RedrawRequested { own_window: true };
    assert_eq!(driver.handle_event(&redraw), LoopAction::Redraw);
    assert_eq!(driver.handle_event(&Event::MainEventsCleared), LoopAction::RequestRedraw);
    assert_eq!(driver.handle_event(&Event::Other), LoopAction::Nothing);
}

#[test]
fn update_uses_up_what_mouse_and_wheel_asked() {
    let (mut driver, _) = setup(800, 600, 1);
    driver.input(&WindowEvent::MouseInput { left: true, pressed: true });
    driver.input(&WindowEvent::KeyboardInput {
        key: Some(Key::Down),
        pressed: true,
    });
    driver.input(&WindowEvent::MouseWheel { delta: ScrollDelta::Lines(2.0f32.to_bits()) });
    driver.handle_event(&Event::MouseMotion { dx: 1.0f64.to_bits(), dy: 2.0f64.to_bits() });
    let asked = driver.controller();
    assert_eq!(asked.scroll, Some(ScrollDelta::Lines(2.0f32.to_bits())));
    assert_eq!(asked.rotate_horizontal, 1.0f64.to_bits());
    let light = driver.light_uniform().position;
    driver.update(position(), matrix(1), light);
    assert_eq!(
        driver.controller(),
        CameraController { rotate_horizontal: 0, rotate_vertical: 0, scroll: None, ..asked }
    );
    assert!(driver.controller().backward);
    assert!(driver.mouse_pressed());
}

#[test]
fn controller_starts_at_rest_with_the_speed_and_sensitivity_of_the_scene() {
    let (driver, _) = setup(800, 600, 1);
    let controller = driver.controller();
    assert_eq!(controller, CameraController::new(4.0f32.to_bits(), 0.4f32.to_bits()));
    assert!(!controller.forward && !controller.backward && !controller.left);
    assert!(!controller.right && !controller.up && !controller.down);
    assert_eq!(f64::from_bits(controller.rotate_horizontal), 0.0);
    assert_eq!(f64::from_bits(controller.rotate_vertical), 0.0);
    assert_eq!(controller.scroll, None);
}

#[test]
fn update_stores_both_blocks_and_writes_them_at_offset_zero() {
    let (mut driver, _) = setup(800, 600, 1);
    let light_position = [3.0f32.to_bits(), 2.0f32.to_bits(), (-1.0f32).to_bits()];
    let writes = driver.update([1, 2, 3], matrix(9), light_position);
    let camera = CameraUniform { view_position: [1, 2, 3, ONE], view_proj: matrix(9) };
    let light = LightUniform { position: light_position, color: [ONE; 3] };
    assert_eq!(driver.camera_uniform(), camera);
    assert_eq!(driver.light_uniform(), light);
    assert_eq!(writes.len(), 2);
    assert_eq!(writes[0].target, BufferId::Camera);
    assert_eq!(writes[0].offset, 0);
    assert_eq!(writes[0].data, camera.to_bytes());
    assert_eq!(writes[1].target, BufferId::Light);
    assert_eq!(writes[1].offset, 0);
    assert_eq!(writes[1].data, light.to_bytes());
    assert_eq!(CameraUniform::from_bytes(&writes[0].data), Some(camera));
    assert_eq!(LightUniform::from_bytes(&writes[1].data), Some(light));
}

#[test]
fn tick_hands_out_the_account_the_light_and_its_angle() {
    let (mut driver, _) = setup(800, 600, 1);
    driver.input(&WindowEvent::KeyboardInput {
        key: Some(Key::Space),
        pressed: true,
    });
    let tick = driver.tick(500_000_000);
    assert_eq!(tick.controller, driver.controller());
    assert!(tick.controller.up);
    assert_eq!(tick.light_position, driver.light_uniform().position);
    assert_eq!(tick.light_angle, 30_000_000_000);
    assert_eq!(driver.tick(0).light_angle, 0);
    assert_eq!(
        driver.tick(250_000_000).light_angle + driver.tick(250_000_000).light_angle,
        driver.tick(500_000_000).light_angle
    );
}

#[test]
fn update_then_render_draws_the_light_once_and_the_grid_a_hundred_times() {
    let (mut driver, _) = setup(800, 600, 1);
    let tick = driver.tick(0);
    assert_eq!(tick.light_angle, 0);
    driver.update(position(), matrix(1), tick.light_position);
    let actions = driver.render(Ok(())).unwrap();
    assert_eq!(actions.len(), 3);
    assert_eq!(actions[1], FrameAction::Submit);
    assert_eq!(actions[2], FrameAction::Present);
    match &actions[0] {
        FrameAction::Encode { clear_color, clear_depth, commands } => {
            assert_eq!(*clear_color, driver.clear_color());
            assert_eq!(f32::from_bits(*clear_depth), 1.0);
            assert_eq!(
                draws(commands),
                vec![(PipelineId::Light, 36, 0, 1), (PipelineId::Object, 36, 0, 100)]
            );
            assert_eq!(
                commands[0],
                RenderCommand::SetVertexBuffer { slot: 1, buffer: BufferId::Instances }
            );
            let materials: Vec<&RenderCommand> = commands
                .iter()
                .filter(|c| matches!(c, RenderCommand::SetBindGroup { index: 0, .. }))
                .collect();
            assert_eq!(
                materials,
                vec![
                    &RenderCommand::SetBindGroup { index: 0, group: BindGroupId::Camera },
                    &RenderCommand::SetBindGroup { index: 0, group: BindGroupId::Material(0) },
                ]
            );
        }
        other => panic!("{other:?}"),
    }
}

#[test]
fn render_draws_every_mesh_of_the_model() {
    let (driver, _) = setup(800, 600, 3);
    let actions = driver.render(Ok(())).unwrap();
    match &actions[0] {
        FrameAction::Encode { commands, .. } => assert_eq!(
            draws(commands),
            vec![
                (PipelineId::Light, 36, 0, 1),
                (PipelineId::Light, 72, 0, 1),
                (PipelineId::Light, 108, 0, 1),
                (PipelineId::Object, 36, 0, 100),
                (PipelineId::Object, 72, 0, 100),
                (PipelineId::Object, 108, 0, 100),
            ]
        ),
        other => panic!("{other:?}"),
    }
}

#[test]
fn render_binds_for_each_mesh_the_material_it_names() {
    let named = [Some(1), Some(0), None, Some(2), Some(1)];
    let raw: Vec<RawMesh> = named
        .iter()
        .map(|material_id| RawMesh {
            positions: vec![0; 9],
            texcoords: vec![0; 6],
            normals: vec![0; 9],
            indices: vec![0, 1, 2],
            material_id: *material_id,
        })
        .collect();
    let materials: Vec<Material> = ["stone", "wood", "brass"]
        .iter()
        .map(|name| Material {
            name: name.to_string(),
            diffuse_texture: format!("{name}-diffuse.png"),
            normal_texture: format!("{name}-normal.png"),
        })
        .collect();
    let model = load_model("props.obj", &raw, materials).unwrap();
    let (driver, _) =
        State::new(800, 600, &["bgra8unorm"], "depth32float", position(), matrix(1), model)
            .unwrap();
    let actions = driver.render(Ok(())).unwrap();
    let commands = match &actions[0] {
        FrameAction::Encode { commands, .. } => commands,
        other => panic!("{other:?}"),
    };
    let meshes = driver.model().meshes();
    assert_eq!(commands.len(), 3 + 11 * meshes.len());
    for (i, mesh) in meshes.iter().enumerate() {
        let at = 3 + 5 * meshes.len() + 6 * i;
        assert_eq!(
            &commands[at..at + 6],
            &[
                RenderCommand::SetVertexBuffer { slot: 0, buffer: BufferId::Vertices(i) },
                RenderCommand::SetIndexBuffer { buffer: BufferId::Indices(i) },
                RenderCommand::SetBindGroup {
                    index: 0,
                    group: BindGroupId::Material(mesh.material)
                },
                RenderCommand::SetBindGroup { index: 1, group: BindGroupId::Camera },
                RenderCommand::SetBindGroup { index: 2, group: BindGroupId::Light },
                RenderCommand::DrawIndexed {
                    first_index: 0,
                    end_index: 3,
                    base_vertex: 0,
                    first_instance: 0,
                    end_instance: 100,
                },
            ]
        );
        assert!(mesh.material < driver.model().materials().len());
    }
    let bound: Vec<usize> = meshes.iter().map(|mesh| mesh.material).collect();
    assert_eq!(bound, vec![1, 0, 0, 2, 1]);
    let light_pass = &commands[2..2 + 5 * meshes.len()];
    let binds_material = |c: &RenderCommand| {
        matches!(c, RenderCommand::SetBindGroup { group: BindGroupId::Material(_), .. })
    };
    assert!(!light_pass.iter().any(binds_material));
}

#[test]
fn render_clears_to_the_colour_the_pointer_set() {
    let (mut driver, _) = setup(800, 600, 1);
    driver.input(&WindowEvent::CursorMoved { x: 400.0f64.to_bits(), y: 300.0f64.to_bits() });
    let actions = driver.render(Ok(())).unwrap();
    match &actions[0] {
        FrameAction::Encode { clear_color, .. } => assert_eq!(
            *clear_color,
            ClearColor {
                r: Channel::Ratio { numerator: 400.0f64.to_bits(), denominator: 800 },
                g: Channel::Ratio { numerator: 300.0f64.to_bits(), denominator: 600 },
                b: Channel::Value(0.3f64.to_bits()),
                a: Channel::Value(1.0f64.to_bits()),
            }
        ),
        other => panic!("{other:?}"),
    }
}

#[test]
fn render_hands_on_every_acquisition_error() {
    let (driver, _) = setup(800, 600, 1);
    for error in [
        SurfaceError::Timeout,
        SurfaceError::Outdated,
        SurfaceError::Lost,
        SurfaceError::OutOfMemory,
    ] {
        assert_eq!(driver.render(Err(error)), Err(error));
    }
}

#[test]
fn lost_surface_is_configured_again_at_the_size_it_had() {
    let (mut driver, _) = setup(800, 600, 1);
    driver.resize(1024, 768);
    let before = driver.viewport();
    assert_eq!(driver.render(Err(SurfaceError::Lost)), Err(SurfaceError::Lost));
    let recovery = driver.recover(SurfaceError::Lost);
    assert_eq!(
        recovery,
        Recovery::Resized(ResizePlan {
            configure: Some(SurfaceConfig {
                format: "bgra8unorm-srgb",
                width: 1024,
                height: 768,
                present_mode: PresentMode::Fifo
            }),
            depth: Size { width: 1024, height: 768 },
        })
    );
    assert_eq!(driver.viewport(), before);
    let actions = driver.render(Ok(())).unwrap();
    assert_eq!(actions.len(), 3);
}

#[test]
fn lost_surface_of_a_window_without_area_is_not_configured() {
    let (mut driver, _) = setup(0, 0, 1);
    assert_eq!(
        driver.recover(SurfaceError::Lost),
        Recovery::Resized(ResizePlan { configure: None, depth: Size { width: 0, height: 0 } })
    );
}

#[test]
fn out_of_memory_ends_the_loop_and_other_errors_are_reported() {
    let (mut driver, _) = setup(800, 600, 1);
    let before = driver.viewport();
    assert_eq!(driver.recover(SurfaceError::OutOfMemory), Recovery::Exit);
    assert_eq!(driver.recover(SurfaceError::Timeout), Recovery::Report);
    assert_eq!(driver.recover(SurfaceError::Outdated), Recovery::Report);
    assert_eq!(driver.viewport(), before);
}
