//! Frame orchestration for a voxel ray-marching renderer.
//!
//! The crate holds everything the renderer decides on the host: the voxel
//! grid handed to the compute kernel, the input and camera state, the frame
//! clock, the parameters of each compute dispatch and the state machine that
//! sequences acquire, dispatch, composite and present. Talking to the window
//! system and to the device is left to the program that embeds it.
//!
//! All quantities are integers. Time is counted in microseconds; speeds,
//! angles and rates in thousandths; positions in `POSITION_UNIT` steps per
//! world unit, so that one microsecond at a speed of one thousandth moves the
//! camera by a whole number of steps.

pub mod clock;
pub mod controller;
pub mod device;
pub mod input;
pub mod pipeline;
pub mod quad;
pub mod session;
pub mod units;
pub mod world;
