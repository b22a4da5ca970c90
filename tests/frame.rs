use griw::frame::{camera_command, Amount, CameraCommand, CameraOp, Input};
use griw::uniforms::{CameraUniforms, Uniforms, Vec3Bits};

fn camera(seed: u32) -> CameraUniforms {
    CameraUniforms::new(
        Vec3Bits::new(seed, seed + 1, seed + 2),
        Vec3Bits::new(1, 0, 0),
        Vec3Bits::new(0, 1, 0),
        Vec3Bits::new(0, 0, 1),
    )
}

#[test]
fn new_block_starts_at_zero() {
    let b = Uniforms::new(400, 225);
    assert_eq!(b.width, 400);
    assert_eq!(b.height, 225);
    assert_eq!(b.frame_count, 0);
    assert_eq!(b.camera, CameraUniforms::zeroed());
}

#[test]
fn frame_count_goes_one_two_three() {
    let mut b = Uniforms::new(400, 225);
    let mut seen = Vec::new();
    for i in 0..3 {
        b.begin_frame(&camera(i));
        seen.push(b.frame_count);
    }
    assert_eq!(seen, vec![1, 2, 3]);
    assert_eq!(b.camera, camera(2));
}

#[test]
fn every_camera_input_restarts_accumulation() {
    let inputs = [
        Input::KeyZ,
        Input::KeyX,
        Input::KeyW,
        Input::KeyS,
        Input::KeyA,
        Input::KeyD,
        Input::Wheel,
        Input::MouseMotion,
    ];
    for input in inputs {
        let mut b = Uniforms::new(8, 8);
        for _ in 0..5 {
            b.begin_frame(&camera(0));
        }
        assert_eq!(b.frame_count, 5);
        assert!(b.dispatch(input).is_some());
        assert_eq!(b.frame_count, 0);
        b.begin_frame(&camera(1));
        assert_eq!(b.frame_count, 1);
    }
}

#[test]
fn reset_samples_restarts_accumulation() {
    let mut b = Uniforms::new(8, 8);
    b.begin_frame(&camera(0));
    b.begin_frame(&camera(0));
    b.reset_samples();
    assert_eq!(b.frame_count, 0);
    b.begin_frame(&camera(3));
    assert_eq!(b.frame_count, 1);
    assert_eq!(b.camera, camera(3));
}

#[test]
fn each_reset_is_immediate_even_within_one_frame() {
    let mut b = Uniforms::new(8, 8);
    b.begin_frame(&camera(0));
    b.dispatch(Input::KeyW);
    b.dispatch(Input::MouseMotion);
    assert_eq!(b.frame_count, 0);
    b.begin_frame(&camera(0));
    assert_eq!(b.frame_count, 1);
}

#[test]
fn other_input_keeps_counting() {
    let mut b = Uniforms::new(8, 8);
    b.begin_frame(&camera(0));
    b.begin_frame(&camera(0));
    assert_eq!(b.dispatch(Input::Other), None);
    assert_eq!(b.frame_count, 2);
    b.begin_frame(&camera(0));
    assert_eq!(b.frame_count, 3);
}

#[test]
fn key_bindings() {
    let cmd = |op, amount| Some(CameraCommand { op, amount });
    assert_eq!(camera_command(Input::KeyZ), cmd(CameraOp::Zoom, Amount::Step));
    assert_eq!(camera_command(Input::KeyX), cmd(CameraOp::Zoom, Amount::NegatedStep));
    assert_eq!(camera_command(Input::KeyW), cmd(CameraOp::MoveAlongW, Amount::Step));
    assert_eq!(camera_command(Input::KeyS), cmd(CameraOp::MoveAlongW, Amount::NegatedStep));
    assert_eq!(camera_command(Input::KeyA), cmd(CameraOp::MoveAlongU, Amount::Step));
    assert_eq!(camera_command(Input::KeyD), cmd(CameraOp::MoveAlongU, Amount::NegatedStep));
    assert_eq!(camera_command(Input::Wheel), cmd(CameraOp::Zoom, Amount::Delta));
    assert_eq!(camera_command(Input::MouseMotion), cmd(CameraOp::Rotate, Amount::Delta));
    assert_eq!(camera_command(Input::Other), None);
}

#[test]
fn frame_count_reaches_the_last_value() {
    let mut b = Uniforms::new(1, 1);
    b.frame_count = u32::MAX - 1;
    b.begin_frame(&camera(0));
    assert_eq!(b.frame_count, u32::MAX);
}
