use scene_renderer::scalar::{ONE, TWO, ZERO};
use scene_renderer::uniform::{
    CameraUniform, LightUniform, CAMERA_UNIFORM_SIZE, LIGHT_UNIFORM_SIZE, ORBIT_DEGREES_PER_SECOND,
};

fn bits3(v: [f32; 3]) -> [u32; 3] {
    [v[0].to_bits(), v[1].to_bits(), v[2].to_bits()]
}

fn bits4x4(m: [[f32; 4]; 4]) -> [[u32; 4]; 4] {
    let mut out = [[0u32; 4]; 4];
    for c in 0..4 {
        for r in 0..4 {
            out[c][r] = m[c][r].to_bits();
        }
    }
    out
}

fn sample_matrix() -> [[f32; 4]; 4] {
    [
        [1.5, -2.0, 0.25, 0.0],
        [4.0, 5.5, -6.0, 7.0],
        [8.0, 9.0, 10.0, -11.5],
        [12.0, 13.0, 14.0, 15.0],
    ]
}

#[test]
fn new_camera_is_at_the_origin_with_the_identity() {
    let camera = CameraUniform::new();
    assert_eq!(camera.view_position, [ZERO; 4]);
    for c in 0..4 {
        for r in 0..4 {
            let expected = if c == r { 1.0f32 } else { 0.0f32 };
            assert_eq!(f32::from_bits(camera.view_proj[c][r]), expected);
        }
    }
}

#[test]
fn update_view_proj_promotes_the_position_and_keeps_the_matrix() {
    let mut camera = CameraUniform::new();
    camera.update_view_proj(bits3([0.0, 5.0, 10.0]), bits4x4(sample_matrix()));
    assert_eq!(
        camera.view_position,
        [0.0f32.to_bits(), 5.0f32.to_bits(), 10.0f32.to_bits(), ONE]
    );
    assert_eq!(f32::from_bits(camera.view_position[3]), 1.0);
    assert_eq!(camera.view_proj, bits4x4(sample_matrix()));
}

#[test]
fn camera_block_is_twenty_floats_position_first_then_columns() {
    let mut camera = CameraUniform::new();
    camera.update_view_proj(bits3([1.0, 2.0, 3.0]), bits4x4(sample_matrix()));
    let bytes = camera.to_bytes();
    assert_eq!(bytes.len(), 80);
    assert_eq!(bytes.len(), CAMERA_UNIFORM_SIZE);
    let mut expected: Vec<u8> = Vec::new();
    for v in [1.0f32, 2.0, 3.0, 1.0] {
        expected.extend_from_slice(&v.to_le_bytes());
    }
    for column in sample_matrix() {
        for v in column {
            expected.extend_from_slice(&v.to_le_bytes());
        }
    }
    assert_eq!(bytes, expected);
    assert_eq!(camera.to_words().len(), 20);
}

#[test]
fn camera_block_round_trips_through_its_bytes() {
    let mut camera = CameraUniform::new();
    camera.update_view_proj(bits3([-7.25, 0.5, 1e-3]), bits4x4(sample_matrix()));
    let back = CameraUniform::from_bytes(&camera.to_bytes()).unwrap();
    assert_eq!(back, camera);
    for c in 0..4 {
        for r in 0..4 {
            assert_eq!(f32::from_bits(back.view_proj[c][r]), sample_matrix()[c][r]);
        }
    }
    let nan = CameraUniform { view_position: [0x7FC0_0001; 4], view_proj: [[u32::MAX; 4]; 4] };
    assert_eq!(CameraUniform::from_bytes(&nan.to_bytes()), Some(nan));
}

#[test]
fn camera_block_is_not_read_from_another_length() {
    assert_eq!(CameraUniform::from_bytes(&[0u8; 79]), None);
    assert_eq!(CameraUniform::from_bytes(&[0u8; 81]), None);
    assert_eq!(CameraUniform::from_bytes(&[]), None);
    assert!(CameraUniform::from_bytes(&[0u8; 80]).is_some());
}

#[test]
fn new_light_is_white_at_two_two_two() {
    let light = LightUniform::new();
    assert_eq!(light.position, [TWO; 3]);
    assert_eq!(light.color, [ONE; 3]);
    assert_eq!(light.position.map(f32::from_bits), [2.0, 2.0, 2.0]);
    assert_eq!(light.color.map(f32::from_bits), [1.0, 1.0, 1.0]);
}

#[test]
fn light_block_pads_each_vector_to_sixteen_bytes() {
    let light = LightUniform { position: bits3([1.0, 2.0, 3.0]), color: bits3([0.5, 0.25, 0.125]) };
    let bytes = light.to_bytes();
    assert_eq!(bytes.len(), 32);
    assert_eq!(bytes.len(), LIGHT_UNIFORM_SIZE);
    let mut expected: Vec<u8> = Vec::new();
    for v in [1.0f32, 2.0, 3.0] {
        expected.extend_from_slice(&v.to_le_bytes());
    }
    expected.extend_from_slice(&[0, 0, 0, 0]);
    for v in [0.5f32, 0.25, 0.125] {
        expected.extend_from_slice(&v.to_le_bytes());
    }
    expected.extend_from_slice(&[0, 0, 0, 0]);
    assert_eq!(bytes, expected);
    assert_eq!(light.to_words().len(), 8);
}

#[test]
fn light_block_round_trips_through_its_bytes() {
    let light = LightUniform { position: bits3([-1.5, 2.0, 1e9]), color: bits3([1.0, 0.0, 0.5]) };
    assert_eq!(LightUniform::from_bytes(&light.to_bytes()), Some(light));
    let back = LightUniform::from_bytes(&light.to_bytes()).unwrap();
    assert_eq!(back.position.map(f32::from_bits), [-1.5, 2.0, 1e9]);
    assert_eq!(back.color.map(f32::from_bits), [1.0, 0.0, 0.5]);
}

#[test]
fn light_block_ignores_what_the_padding_holds() {
    let light = LightUniform { position: bits3([1.0, 2.0, 3.0]), color: bits3([4.0, 5.0, 6.0]) };
    let mut bytes = light.to_bytes();
    for i in (12..16).chain(28..32) {
        bytes[i] = 0xAB;
    }
    assert_eq!(LightUniform::from_bytes(&bytes), Some(light));
}

#[test]
fn light_block_is_not_read_from_another_length() {
    assert_eq!(LightUniform::from_bytes(&[0u8; 31]), None);
    assert_eq!(LightUniform::from_bytes(&[0u8; 33]), None);
    assert_eq!(LightUniform::from_bytes(&[0u8; 24]), None);
}

#[test]
fn moved_light_keeps_its_colour() {
    let light = LightUniform { position: bits3([1.0, 2.0, 3.0]), color: bits3([4.0, 5.0, 6.0]) };
    let moved = light.moved_to(bits3([7.0, 8.0, 9.0]));
    assert_eq!(moved.position, bits3([7.0, 8.0, 9.0]));
    assert_eq!(moved.color, light.color);
}

#[test]
fn light_turns_sixty_degrees_a_second() {
    assert_eq!(ORBIT_DEGREES_PER_SECOND, 60);
    assert_eq!(LightUniform::orbit_step(0), 0);
    assert_eq!(LightUniform::orbit_step(1_000_000_000), 60_000_000_000);
    assert_eq!(LightUniform::orbit_step(16_666_667), 1_000_000_020);
    assert_eq!(LightUniform::orbit_step(u64::MAX), 60 * (u64::MAX as u128));
}

#[test]
fn orbit_is_linear_in_time() {
    for (a, b) in [(0u64, 0u64), (1, 2), (16_666_667, 33_333_333), (5_000_000_000, 1)] {
        assert_eq!(
            LightUniform::orbit_step(a) + LightUniform::orbit_step(b),
            LightUniform::orbit_step(a + b)
        );
    }
}
