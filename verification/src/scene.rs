//! The scene the renderer starts with: how many instances, how far apart,
//! and where the camera stands and looks. Angles are in degrees.

use vstd::prelude::*;

verus! {

/// Instances in one row of the grid; the grid has as many rows.
pub const NUM_INSTANCES_PER_ROW: u32 = 10;

/// Units from one instance of the grid to the next.
pub const SPACE_BETWEEN: i32 = 3;

/// Where the camera stands at the start: five units up, ten units back.
pub const CAMERA_X: u32 = 0;

pub const CAMERA_Y: u32 = 0x40A0_0000;

pub const CAMERA_Z: u32 = 0x4120_0000;

/// The camera's yaw at the start: a quarter turn to the left.
pub const CAMERA_YAW: u32 = 0xC2B4_0000;

/// The camera's pitch at the start: twenty degrees down.
pub const CAMERA_PITCH: u32 = 0xC1A0_0000;

/// The vertical field of view: forty-five degrees.
pub const FIELD_OF_VIEW: u32 = 0x4234_0000;

/// The near plane: a tenth of a unit from the camera.
pub const NEAR_PLANE: u32 = 0x3DCC_CCCD;

/// The far plane: a hundred units from the camera.
pub const FAR_PLANE: u32 = 0x42C8_0000;

/// Units per second the camera moves at: four.
pub const CAMERA_SPEED: u32 = 0x4080_0000;

/// How strongly the camera follows the mouse: four tenths.
pub const CAMERA_SENSITIVITY: u32 = 0x3ECC_CCCD;

} // verus!
