use cgmath::{Deg, InnerSpace, Matrix4, Point3, Quaternion, Rotation3, Vector3, Vector4};
use scene_renderer::driver::State;
use scene_renderer::geometry::load_model;
use scene_renderer::uniform::{CameraUniform, LightUniform};

fn bits3(v: [f32; 3]) -> [u32; 3] {
    v.map(f32::to_bits)
}

fn bits4x4(m: [[f32; 4]; 4]) -> [[u32; 4]; 4] {
    m.map(|column| column.map(f32::to_bits))
}

fn floats4x4(m: [[u32; 4]; 4]) -> [[f32; 4]; 4] {
    m.map(|column| column.map(f32::from_bits))
}

fn close(a: Vector3<f32>, b: Vector3<f32>) -> bool {
    (a - b).magnitude() <= 1e-4 * (1.0 + a.magnitude())
}

fn turned(position: [u32; 3], nanodegrees: u128) -> [u32; 3] {
    let old: Vector3<f32> = position.map(f32::from_bits).into();
    let rotation =
        Quaternion::from_axis_angle(Vector3::unit_y(), Deg(nanodegrees as f32 / 1.0e9));
    let new: [f32; 3] = (rotation * old).into();
    bits3(new)
}

#[test]
fn camera_block_carries_projection_times_view_to_the_shader() {
    let eye = Point3::new(0.0f32, 5.0, 10.0);
    let projection = cgmath::perspective(Deg(45.0f32), 800.0 / 600.0, 0.1, 100.0);
    let ahead = Vector3::new(0.0, -0.3, -1.0).normalize();
    let view = Matrix4::look_to_rh(eye, ahead, Vector3::unit_y());
    let product = projection * view;

    let mut camera = CameraUniform::new();
    camera.update_view_proj(bits3(eye.into()), bits4x4(product.into()));
    let seen = CameraUniform::from_bytes(&camera.to_bytes()).unwrap();
    let seen_matrix: Matrix4<f32> = floats4x4(seen.view_proj).into();
    assert_eq!(seen_matrix, product);
    assert_eq!(seen.view_position.map(f32::from_bits), [0.0, 5.0, 10.0, 1.0]);

    let point = Vector4::new(1.0f32, 2.0, -3.0, 1.0);
    let by_steps = projection * (view * point);
    let at_once = seen_matrix * point;
    assert!((by_steps - at_once).magnitude() <= 1e-4 * by_steps.magnitude());
    let reversed = (view * projection) * point;
    assert!((reversed - at_once).magnitude() > 1e-2);
}

#[test]
fn camera_block_lists_the_matrix_by_columns() {
    let shift = Matrix4::from_translation(Vector3::new(7.0f32, 8.0, 9.0));
    let mut camera = CameraUniform::new();
    camera.update_view_proj(bits3([0.0; 3]), bits4x4(shift.into()));
    let words: Vec<f32> = camera.to_words().into_iter().map(f32::from_bits).collect();
    assert_eq!(&words[16..20], &[7.0, 8.0, 9.0, 1.0]);
    assert_eq!(&words[4..8], &[1.0, 0.0, 0.0, 0.0]);
}

#[test]
fn light_turns_the_same_whether_time_comes_in_one_span_or_two() {
    let start = LightUniform::new();
    for (first, second) in [
        (0u64, 0u64),
        (16_666_667, 16_666_667),
        (1_000_000, 999_000_000),
        (250_000_000, 5_750_000_000),
    ] {
        let in_two = start
            .moved_to(turned(start.position, LightUniform::orbit_step(first)))
            .position;
        let in_two = turned(in_two, LightUniform::orbit_step(second));
        let in_one = turned(start.position, LightUniform::orbit_step(first + second));
        let in_two: Vector3<f32> = in_two.map(f32::from_bits).into();
        let in_one: Vector3<f32> = in_one.map(f32::from_bits).into();
        assert!(close(in_two, in_one), "{in_two:?} {in_one:?}");
    }
}

#[test]
fn light_goes_once_around_in_six_seconds() {
    let start = LightUniform::new();
    assert_eq!(LightUniform::orbit_step(6_000_000_000), 360_000_000_000);
    let around = turned(start.position, LightUniform::orbit_step(6_000_000_000));
    let around: Vector3<f32> = around.map(f32::from_bits).into();
    assert!(close(around, Vector3::new(2.0, 2.0, 2.0)));
    let quarter = turned(start.position, LightUniform::orbit_step(1_500_000_000));
    let quarter: Vector3<f32> = quarter.map(f32::from_bits).into();
    assert!(close(quarter, Vector3::new(2.0, 2.0, -2.0)));
}

#[test]
fn update_with_no_time_passed_leaves_the_light_where_it_is() {
    let model = load_model("none.obj", &[], vec![]).unwrap();
    let (mut driver, _) = State::new(4, 4, &[0u8], 1u8, [0; 3], [[0; 4]; 4], model).unwrap();
    let before = driver.light_uniform();
    let tick = driver.tick(0);
    let position = turned(tick.light_position, tick.light_angle);
    driver.update([0; 3], [[0; 4]; 4], position);
    assert_eq!(driver.light_uniform(), before);
}
