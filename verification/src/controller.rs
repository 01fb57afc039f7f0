//! The camera, the world it looks at, and the parameters of a compute
//! dispatch.

use crate::input::NUDGE_STEP;
use crate::units::{clamp_i32, clamp_i64, saturate_i64, saturating_sum_i32, POSITION_UNIT};
use crate::world::VoxelWorld;
use vstd::prelude::*;

verus! {

/// Width and height, in pixels, of the tile that one work group covers.
pub const TILE_SIZE: u32 = 16;

/// The binding of the image that the kernel writes.
pub const IMAGE_BINDING: u32 = 0;

/// The binding of the world buffer that the kernel reads.
pub const WORLD_BINDING: u32 = 1;

/// The third component of the fixed forward direction of the camera, in
/// thousandths: 0.8. The other two are zero.
pub const CAMERA_FORWARD_Z: i32 = 800;

/// The third coordinate of the camera at start, in world units.
pub const INITIAL_DEPTH: i64 = -10;

/// World units per second that one movement flag moves the camera at a move
/// speed of 1.0.
pub const TRANSLATION_RATE: i64 = 5;

/// What one notch turns the camera by, in thousandths of a radian: 0.05.
pub const ROTATION_STEP: i32 = 50;

/// How far one movement flag moves the camera in a frame of `dt`
/// microseconds at `move_speed` thousandths, in position steps: five times
/// the time times the speed.
pub open spec fn translation_step(dt: u32, move_speed: i32) -> int {
    TRANSLATION_RATE * dt * move_speed
}

/// A coordinate moved by one translation step, forth if `positive` and back
/// if not. The result stays at the bound of `i64` that the step would cross.
pub open spec fn translated(coordinate: i64, dt: u32, move_speed: i32, positive: bool) -> i64 {
    if positive {
        clamp_i64(coordinate + translation_step(dt, move_speed))
    } else {
        clamp_i64(coordinate - translation_step(dt, move_speed))
    }
}

/// A coordinate after a frame in which the flag `forth` moves it forth and
/// the flag `back` moves it back. When `back_first` the step back is taken
/// before the step forth, else after it; the order shows only where a step
/// meets a bound of `i64`.
pub open spec fn moved(
    coordinate: i64,
    dt: u32,
    move_speed: i32,
    forth: bool,
    back: bool,
    back_first: bool,
) -> i64 {
    if back_first {
        let first = if back {
            translated(coordinate, dt, move_speed, false)
        } else {
            coordinate
        };
        if forth {
            translated(first, dt, move_speed, true)
        } else {
            first
        }
    } else {
        let first = if forth {
            translated(coordinate, dt, move_speed, true)
        } else {
            coordinate
        };
        if back {
            translated(first, dt, move_speed, false)
        } else {
            first
        }
    }
}

/// Whether a pointer accumulator stands exactly one nudge from zero, the
/// only two values that turn the camera.
pub open spec fn is_notch(accumulator: i32) -> bool {
    accumulator == NUDGE_STEP || accumulator == -NUDGE_STEP
}

/// An angle after a frame that found `accumulator` in a pointer
/// accumulator: one rotation step on, or back, when the accumulator stands
/// at exactly one nudge up, or down, and unchanged at any other value.
pub open spec fn turned(angle: i32, accumulator: i32) -> i32 {
    if accumulator == NUDGE_STEP {
        clamp_i32(angle + ROTATION_STEP)
    } else if accumulator == -NUDGE_STEP {
        clamp_i32(angle - ROTATION_STEP)
    } else {
        angle
    }
}

/// A pointer accumulator after a frame: back at zero when it turned the
/// camera, else as it was.
pub open spec fn settled(accumulator: i32) -> i32 {
    if is_notch(accumulator) {
        0
    } else {
        accumulator
    }
}

/// Moves a coordinate by one translation step.
pub fn translate(coordinate: i64, dt: u32, move_speed: i32, positive: bool) -> (moved: i64)
    ensures
        moved == translated(coordinate, dt, move_speed, positive),
{
    let time: i128 = dt as i128;
    let speed: i128 = move_speed as i128;
    assert(-0x8000_0000_0000_0000 <= time * speed <= 0x8000_0000_0000_0000) by (nonlinear_arith)
        requires
            0 <= time <= 0xffff_ffff,
            -0x8000_0000 <= speed <= 0x7fff_ffff,
    ;
    let scaled: i128 = time * speed;
    let step: i128 = TRANSLATION_RATE as i128 * scaled;
    assert(step == translation_step(dt, move_speed)) by (nonlinear_arith)
        requires
            step == TRANSLATION_RATE * (time * speed),
            time == dt,
            speed == move_speed,
    ;
    if positive {
        saturate_i64(coordinate as i128 + step)
    } else {
        saturate_i64(coordinate as i128 - step)
    }
}

/// Turns an angle as the pointer accumulator asks.
pub fn turn(angle: i32, accumulator: i32) -> (angle_after: i32)
    ensures
        angle_after == turned(angle, accumulator),
{
    if accumulator == NUDGE_STEP {
        saturating_sum_i32(angle, ROTATION_STEP)
    } else if accumulator == -NUDGE_STEP {
        saturating_sum_i32(angle, -ROTATION_STEP)
    } else {
        angle
    }
}

/// The parameters the kernel receives with every dispatch.
#[derive(Clone, Copy, Debug, PartialEq, Eq)]
pub struct PushConstants {
    /// Width and height of the target image, in pixels.
    pub resolution: [u32; 2],
    /// Forward direction of the camera, in thousandths.
    pub camera_dir: [i32; 3],
    /// Rotation of the camera, in thousandths of a radian.
    pub rotation: [i32; 3],
    /// Position of the camera, in position steps.
    pub position: [i64; 3],
    pub render_distance: u32,
}

/// One submission of the compute kernel.
#[derive(Clone, Copy, Debug, PartialEq, Eq)]
pub struct ComputeDispatch {
    /// Work groups along each axis.
    pub group_counts: [u32; 3],
    /// Where the target image is bound.
    pub image_binding: u32,
    /// Where the world buffer is bound.
    pub world_binding: u32,
    pub push_constants: PushConstants,
}

/// The camera and the world.
pub struct Controller {
    /// The occupancy grid; never changed after `new`.
    pub world: VoxelWorld,
    /// Position of the camera, in position steps.
    pub position: [i64; 3],
    /// Rotation of the camera, in thousandths of a radian.
    pub rotation: [i32; 3],
    pub render_distance: u32,
}

impl Controller {
    /// What `compute` submits for a target image of `width` by `height`
    /// pixels: one work group for every whole tile, the bindings of the
    /// kernel, and the camera as it stands.
    pub open spec fn dispatch_for(self, width: u32, height: u32) -> ComputeDispatch {
        ComputeDispatch {
            group_counts: [width / TILE_SIZE, height / TILE_SIZE, 1],
            image_binding: IMAGE_BINDING,
            world_binding: WORLD_BINDING,
            push_constants: PushConstants {
                resolution: [width, height],
                camera_dir: [0, 0, CAMERA_FORWARD_Z],
                rotation: self.rotation,
                position: self.position,
                render_distance: self.render_distance,
            },
        }
    }

    /// A camera at its starting place over a given world.
    pub fn with_world(world: VoxelWorld, render_distance: u32) -> (controller: Controller)
        ensures
            controller.world == world,
            controller.position == [0i64, 0i64, (INITIAL_DEPTH * POSITION_UNIT) as i64],
            controller.rotation == [0i32, 0i32, 0i32],
            controller.render_distance == render_distance,
    {
        Controller {
            world,
            position: [0, 0, INITIAL_DEPTH * POSITION_UNIT],
            rotation: [0, 0, 0],
            render_distance,
        }
    }

    /// A camera at its starting place over a freshly generated world.
    pub fn new(render_distance: u32) -> (controller: Controller)
        ensures
            controller.world.well_formed(),
            controller.position == [0i64, 0i64, (INITIAL_DEPTH * POSITION_UNIT) as i64],
            controller.rotation == [0i32, 0i32, 0i32],
            controller.render_distance == render_distance,
    {
        Controller::with_world(VoxelWorld::generate(), render_distance)
    }

    /// The dispatch for a target image of `width` by `height` pixels.
    pub fn compute(&self, width: u32, height: u32) -> (dispatch: ComputeDispatch)
        ensures
            dispatch == self.dispatch_for(width, height),
    {
        ComputeDispatch {
            group_counts: [width / TILE_SIZE, height / TILE_SIZE, 1],
            image_binding: IMAGE_BINDING,
            world_binding: WORLD_BINDING,
            push_constants: PushConstants {
                resolution: [width, height],
                camera_dir: [0, 0, CAMERA_FORWARD_Z],
                rotation: self.rotation,
                position: self.position,
                render_distance: self.render_distance,
            },
        }
    }
}

} // verus!
