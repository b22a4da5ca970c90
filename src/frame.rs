use vstd::prelude::*;

use crate::uniforms::{CameraUniforms, Uniforms};

verus! {

/// An input event, as far as the camera cares about it.
#[derive(Clone, Copy, Debug, PartialEq, Eq, Structural)]
pub enum Input {
    /// Key Z: zoom in.
    KeyZ,
    /// Key X: zoom out.
    KeyX,
    /// Key W: move forward.
    KeyW,
    /// Key S: move back.
    KeyS,
    /// Key A: strafe left.
    KeyA,
    /// Key D: strafe right.
    KeyD,
    /// A turn of the mouse wheel.
    Wheel,
    /// A motion of the mouse.
    MouseMotion,
    /// Anything else.
    Other,
}

/// The camera operation that an input asks for.
#[derive(Clone, Copy, Debug, PartialEq, Eq, Structural)]
pub enum CameraOp {
    Zoom,
    MoveAlongW,
    MoveAlongU,
    Rotate,
}

/// How far the operation goes.
#[derive(Clone, Copy, Debug, PartialEq, Eq, Structural)]
pub enum Amount {
    /// The fixed step of a key press.
    Step,
    /// The fixed step of a key press, negated.
    NegatedStep,
    /// The delta that the device reported, scaled by its sensitivity.
    Delta,
}

#[derive(Clone, Copy, Debug, PartialEq, Eq, Structural)]
pub struct CameraCommand {
    pub op: CameraOp,
    pub amount: Amount,
}

/// The camera command bound to `input`, if any.
pub open spec fn command_of(input: Input) -> Option<CameraCommand> {
    match input {
        Input::KeyZ => Some(CameraCommand { op: CameraOp::Zoom, amount: Amount::Step }),
        Input::KeyX => Some(CameraCommand { op: CameraOp::Zoom, amount: Amount::NegatedStep }),
        Input::KeyW => Some(CameraCommand { op: CameraOp::MoveAlongW, amount: Amount::Step }),
        Input::KeyS => Some(CameraCommand { op: CameraOp::MoveAlongW, amount: Amount::NegatedStep }),
        Input::KeyA => Some(CameraCommand { op: CameraOp::MoveAlongU, amount: Amount::Step }),
        Input::KeyD => Some(CameraCommand { op: CameraOp::MoveAlongU, amount: Amount::NegatedStep }),
        Input::Wheel => Some(CameraCommand { op: CameraOp::Zoom, amount: Amount::Delta }),
        Input::MouseMotion => Some(CameraCommand { op: CameraOp::Rotate, amount: Amount::Delta }),
        Input::Other => None,
    }
}

/// The camera command bound to `input`, if any.
pub fn camera_command(input: Input) -> (r: Option<CameraCommand>)
    ensures
        r == command_of(input),
{
    match input {
        Input::KeyZ => Some(CameraCommand { op: CameraOp::Zoom, amount: Amount::Step }),
        Input::KeyX => Some(CameraCommand { op: CameraOp::Zoom, amount: Amount::NegatedStep }),
        Input::KeyW => Some(CameraCommand { op: CameraOp::MoveAlongW, amount: Amount::Step }),
        Input::KeyS => Some(CameraCommand { op: CameraOp::MoveAlongW, amount: Amount::NegatedStep }),
        Input::KeyA => Some(CameraCommand { op: CameraOp::MoveAlongU, amount: Amount::Step }),
        Input::KeyD => Some(CameraCommand { op: CameraOp::MoveAlongU, amount: Amount::NegatedStep }),
        Input::Wheel => Some(CameraCommand { op: CameraOp::Zoom, amount: Amount::Delta }),
        Input::MouseMotion => Some(CameraCommand { op: CameraOp::Rotate, amount: Amount::Delta }),
        Input::Other => None,
    }
}

impl Uniforms {
    /// The state after `input`: any input that moves the camera restarts
    /// accumulation, any other leaves the state as it was.
    pub open spec fn after_input(self, input: Input) -> Uniforms {
        if command_of(input) is Some {
            self.restarted()
        } else {
            self
        }
    }

    /// Handles one input event: returns the camera command that the caller
    /// must apply, and restarts accumulation exactly when there is one.
    pub fn dispatch(&mut self, input: Input) -> (r: Option<CameraCommand>)
        ensures
            r == command_of(input),
            *final(self) == old(self).after_input(input),
    {
        let r = camera_command(input);
        if r.is_some() {
            self.reset_samples();
        }
        r
    }
}

/// The state after one frame for each camera snapshot of `cameras`, in order.
pub open spec fn run_frames(b: Uniforms, cameras: Seq<CameraUniforms>) -> Uniforms
    decreases cameras.len(),
{
    if cameras.len() == 0 {
        b
    } else {
        run_frames(b, cameras.drop_last()).advanced(cameras.last())
    }
}

/// A camera-moving input restarts accumulation: whatever the count was, the
/// next frame after the input, or after an explicit reset, is frame 1.
pub proof fn lemma_camera_input_restarts(b: Uniforms, input: Input, camera: CameraUniforms)
    requires
        command_of(input) is Some,
    ensures
        b.after_input(input).frame_count == 0,
        b.after_input(input).advanced(camera).frame_count == 1,
        b.restarted().advanced(camera).frame_count == 1,
{
}

/// Without camera input in between, each frame adds exactly one to the count:
/// after `k` frames it has grown by `k`, and the camera is the last snapshot.
pub proof fn lemma_frames_count_up(b: Uniforms, cameras: Seq<CameraUniforms>)
    requires
        b.frame_count + cameras.len() <= u32::MAX,
    ensures
        run_frames(b, cameras).frame_count == b.frame_count + cameras.len(),
        cameras.len() > 0 ==> run_frames(b, cameras).camera == cameras.last(),
        run_frames(b, cameras).width == b.width,
        run_frames(b, cameras).height == b.height,
    decreases cameras.len(),
{
    if cameras.len() > 0 {
        lemma_frames_count_up(b, cameras.drop_last());
    }
}

/// Inputs that do not move the camera leave the count alone.
pub proof fn lemma_other_input_keeps_count(b: Uniforms, input: Input)
    requires
        command_of(input) is None,
    ensures
        b.after_input(input) == b,
{
}

} // verus!
