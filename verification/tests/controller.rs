use scene_renderer::controller::{CameraController, CameraKey, ScrollDelta};

fn rest() -> CameraController {
    CameraController::new(4.0f32.to_bits(), 0.4f32.to_bits())
}

#[test]
fn new_controller_has_nothing_asked() {
    assert_eq!(
        rest(),
        CameraController {
            forward: false,
            backward: false,
            left: false,
            right: false,
            up: false,
            down: false,
            rotate_horizontal: 0,
            rotate_vertical: 0,
            scroll: None,
            speed: 4.0f32.to_bits(),
            sensitivity: 0.4f32.to_bits(),
        }
    );
}

#[test]
fn each_key_holds_its_own_direction() {
    let cases = [
        (CameraKey::Forward, CameraController { forward: true, ..rest() }),
        (CameraKey::Backward, CameraController { backward: true, ..rest() }),
        (CameraKey::Left, CameraController { left: true, ..rest() }),
        (CameraKey::Right, CameraController { right: true, ..rest() }),
        (CameraKey::Up, CameraController { up: true, ..rest() }),
        (CameraKey::Down, CameraController { down: true, ..rest() }),
    ];
    for (key, held) in cases {
        let mut controller = rest();
        assert!(controller.process_keyboard(key, true));
        assert_eq!(controller, held);
        assert!(controller.process_keyboard(key, false));
        assert_eq!(controller, rest());
    }
}

#[test]
fn last_report_of_mouse_and_wheel_counts() {
    let mut controller = rest();
    controller.process_mouse(1.0f64.to_bits(), 2.0f64.to_bits());
    controller.process_mouse(3.0f64.to_bits(), 4.0f64.to_bits());
    controller.process_scroll(ScrollDelta::Lines(1.0f32.to_bits()));
    controller.process_scroll(ScrollDelta::Pixels(9.0f64.to_bits()));
    assert_eq!(
        controller,
        CameraController {
            rotate_horizontal: 3.0f64.to_bits(),
            rotate_vertical: 4.0f64.to_bits(),
            scroll: Some(ScrollDelta::Pixels(9.0f64.to_bits())),
            ..rest()
        }
    );
}

#[test]
fn drain_hands_out_the_account_and_keeps_the_held_keys() {
    let mut controller = rest();
    controller.process_keyboard(CameraKey::Left, true);
    controller.process_mouse(1.0f64.to_bits(), 2.0f64.to_bits());
    controller.process_scroll(ScrollDelta::Lines(1.0f32.to_bits()));
    let asked = controller;
    assert_eq!(controller.drain(), asked);
    assert_eq!(controller, CameraController { left: true, ..rest() });
    assert_eq!(controller.drain(), CameraController { left: true, ..rest() });
}
