use pyramid_camera::controls::{Axis, CameraControls, Look, Step};
use pyramid_camera::input::{
    movement_for_key, quit_requested, InputEvent, Movement, KEY_A, KEY_D, KEY_ESCAPE, KEY_LSHIFT,
    KEY_S, KEY_SPACE, KEY_W,
};
use pyramid_camera::viewport::Viewport;

fn controls(width: i32, height: i32) -> CameraControls {
    CameraControls::new(Viewport::new(width, height).unwrap())
}

fn key(code: i32) -> InputEvent {
    InputEvent::KeyDown { keycode: Some(code) }
}

fn cross(a: [f32; 3], b: [f32; 3]) -> [f32; 3] {
    [a[1] * b[2] - a[2] * b[1], a[2] * b[0] - a[0] * b[2], a[0] * b[1] - a[1] * b[0]]
}

fn normalize(v: [f32; 3]) -> [f32; 3] {
    let n = (v[0] * v[0] + v[1] * v[1] + v[2] * v[2]).sqrt();
    [v[0] / n, v[1] / n, v[2] / n]
}

/// Moves `position` by one step of `speed`, the way the viewer applies a step.
fn apply(position: [f32; 3], step: Step, orientation: [f32; 3], up: [f32; 3], speed: f32) -> [f32; 3] {
    let dir = match step.axis {
        Axis::Orientation => orientation,
        Axis::Right => normalize(cross(orientation, up)),
        Axis::Up => up,
    };
    let sign = if step.toward { 1.0 } else { -1.0 };
    [
        position[0] + sign * speed * dir[0],
        position[1] + sign * speed * dir[1],
        position[2] + sign * speed * dir[2],
    ]
}

#[test]
fn key_bindings() {
    assert_eq!(movement_for_key(KEY_W), Some(Movement::Forward));
    assert_eq!(movement_for_key(KEY_S), Some(Movement::Back));
    assert_eq!(movement_for_key(KEY_A), Some(Movement::StrafeLeft));
    assert_eq!(movement_for_key(KEY_D), Some(Movement::StrafeRight));
    assert_eq!(movement_for_key(KEY_SPACE), Some(Movement::Up));
    assert_eq!(movement_for_key(KEY_LSHIFT), Some(Movement::Down));
    assert_eq!(movement_for_key(KEY_ESCAPE), None);
    assert_eq!(movement_for_key(0), None);
}

#[test]
fn movement_steps() {
    assert_eq!(Movement::Forward.step(), Step { axis: Axis::Orientation, toward: true });
    assert_eq!(Movement::Back.step(), Step { axis: Axis::Orientation, toward: false });
    assert_eq!(Movement::StrafeLeft.step(), Step { axis: Axis::Right, toward: false });
    assert_eq!(Movement::StrafeRight.step(), Step { axis: Axis::Right, toward: true });
    assert_eq!(Movement::Up.step(), Step { axis: Axis::Up, toward: true });
    assert_eq!(Movement::Down.step(), Step { axis: Axis::Up, toward: false });
}

#[test]
fn unrecognized_key_is_ignored() {
    let c = controls(700, 700);
    for code in [0, 1, 27, 98, 120, 1073742048, i32::MIN, i32::MAX] {
        assert_eq!(c.keyboard_inputs(&key(code)), None);
        assert_eq!(c.mouse_inputs(&key(code)), None);
    }
    let no_code = InputEvent::KeyDown { keycode: None };
    assert_eq!(c.keyboard_inputs(&no_code), None);
    assert_eq!(c.mouse_inputs(&no_code), None);
    assert_eq!(c.keyboard_inputs(&InputEvent::Other), None);
    assert_eq!(c.keyboard_inputs(&InputEvent::Quit), None);
}

#[test]
fn forward_then_back_returns() {
    let c = controls(700, 700);
    let forward = c.keyboard_inputs(&key(KEY_W)).unwrap();
    let back = c.keyboard_inputs(&key(KEY_S)).unwrap();
    assert_eq!(forward.axis, back.axis);
    assert_ne!(forward.toward, back.toward);
    let orientation = [0.0, 0.0, -1.0];
    let up = [0.0, 1.0, 0.0];
    let start = [0.25, -1.0, 2.0];
    let p = apply(apply(start, forward, orientation, up, 0.1), back, orientation, up, 0.1);
    for i in 0..3 {
        assert!((p[i] - start[i]).abs() < 1e-6);
    }
}

#[test]
fn end_to_end_forward_and_strafe_right() {
    let c = controls(700, 700);
    let orientation = [0.0, 0.0, -1.0];
    let up = [0.0, 1.0, 0.0];
    let mut position = [0.0, 0.0, 2.0];
    position = apply(position, c.keyboard_inputs(&key(KEY_W)).unwrap(), orientation, up, 0.1);
    assert!((position[0] - 0.0).abs() < 1e-6);
    assert!((position[1] - 0.0).abs() < 1e-6);
    assert!((position[2] - 1.9).abs() < 1e-6);
    let right = c.keyboard_inputs(&key(KEY_D)).unwrap();
    assert_eq!(right, Step { axis: Axis::Right, toward: true });
    position = apply(position, right, orientation, up, 0.1);
    assert!((position[0] - 0.1).abs() < 1e-6);
    assert!((position[1] - 0.0).abs() < 1e-6);
    assert!((position[2] - 1.9).abs() < 1e-6);
    assert_eq!(c.recentre_point(), (350, 350));
}

#[test]
fn mouse_offsets_from_center() {
    let c = controls(700, 700);
    assert_eq!(c.mouse_inputs(&InputEvent::MouseMotion { x: 350, y: 350 }), Some(Look { dx: 0, dy: 0 }));
    assert_eq!(c.mouse_inputs(&InputEvent::MouseMotion { x: 360, y: 340 }), Some(Look { dx: 10, dy: -10 }));
    assert_eq!(c.mouse_inputs(&InputEvent::MouseMotion { x: 400, y: 350 }), Some(Look { dx: 50, dy: 0 }));
    assert_eq!(c.mouse_inputs(&InputEvent::Other), None);
    assert_eq!(c.keyboard_inputs(&InputEvent::MouseMotion { x: 0, y: 0 }), None);
}

#[test]
fn mouse_offsets_do_not_overflow() {
    let c = controls(i32::MAX, 3);
    assert_eq!(
        c.mouse_inputs(&InputEvent::MouseMotion { x: i32::MIN, y: i32::MAX }),
        Some(Look { dx: i32::MIN as i64 - (i32::MAX / 2) as i64, dy: i32::MAX as i64 - 1 })
    );
}

#[test]
fn quit_and_escape_end_the_viewer() {
    assert!(quit_requested(&InputEvent::Quit));
    assert!(quit_requested(&key(KEY_ESCAPE)));
    assert!(!quit_requested(&key(KEY_W)));
    assert!(!quit_requested(&InputEvent::KeyDown { keycode: None }));
    assert!(!quit_requested(&InputEvent::MouseMotion { x: 1, y: 2 }));
    assert!(!quit_requested(&InputEvent::Other));
}
