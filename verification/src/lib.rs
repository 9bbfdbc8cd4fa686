//! The frame lifecycle and GPU resource model of a small real-time scene
//! renderer: a textured mesh, drawn many times over in a grid, lit by one
//! light that circles the scene, seen through a free-flying camera.
//!
//! The library owns no window and no device. It keeps the state of the
//! renderer, decides what every event leads to, and describes as plain
//! values what is to be created, written and drawn; the program around it
//! carries that out. Floating-point values pass through as the integers
//! that encode them, so every contract here is exact.
//!
//! - [`bytes`], [`words`], [`scalar`]: little-endian packing of 32-bit
//!   words, the word layout of matrices, and the bit patterns of the
//!   constants in use.
//! - [`uniform`]: the camera block and the light block, byte for byte, and
//!   the rate at which the light turns.
//! - [`layout`], [`instance`], [`geometry`]: vertex buffer layouts, the
//!   instance grid and its packed attributes, and the assembly of a model
//!   from decoded meshes.
//! - [`pipeline`]: bind group layouts and the two render pipelines.
//! - [`phase`], [`frame`], [`device`]: the phases of a frame, the commands
//!   that draw it, and the names of what lives on the device.
//! - [`viewport`], [`controller`], [`event`], [`scene`], [`driver`]: the
//!   dimensions kept across resizes, the account of the camera controller,
//!   the events of the loop, the scene at the start, and the driver that
//!   ties them together.

pub mod bytes;
pub mod controller;
pub mod device;
pub mod driver;
pub mod event;
pub mod frame;
pub mod geometry;
pub mod instance;
pub mod layout;
pub mod phase;
pub mod pipeline;
pub mod scalar;
pub mod scene;
pub mod uniform;
pub mod viewport;
pub mod words;
