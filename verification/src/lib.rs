//! A CANopen slave node with a CiA-402 drive profile, verified with Verus.
//!
//! A node answers the frames of a CAN bus from its object dictionary: NMT
//! commands, expedited SDO transfers, receive PDOs, and SYNC with its transmit
//! PDOs. A drive on top of the node follows the controlword through the
//! CiA-402 state machine and simulates the profile position, profile velocity
//! and homing modes.
//!
//! The library does no input or output. Frames come in as an identifier and
//! bytes and go out as [`frame::Frame`] values; time comes in as milliseconds;
//! a data sheet comes in as text; the trajectory of a move, which takes
//! floating point, is asked for by a [`motion::MotionRequest`] and comes back as
//! a [`motion::MotionMap`].
//!
//! - [`od`], on [`sorted_map`]: the object dictionary.
//! - [`eds`], on [`sheet`] and [`text`]: typed values and the data sheet that
//!   seeds the dictionary.
//! - [`codec`]: values on the wire.
//! - [`frame`], [`nmt`], [`sdo`], [`cia301`]: the frame engine.
//! - [`motion`], [`cia402_runner`]: the drive.
//! - [`config`]: the configuration of bus and nodes.
//! - [`laws`]: what holds across these operations.

pub mod cia301;
pub mod cia402_runner;
pub mod codec;
pub mod config;
pub mod eds;
pub mod frame;
pub mod laws;
pub mod motion;
pub mod nmt;
pub mod od;
pub mod sdo;
pub mod sheet;
pub mod sorted_map;
pub mod text;
