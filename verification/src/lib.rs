//! Host-side command protocol for a geared DC servo motor module that is
//! driven over a serial line with fixed ten-byte frames.
//!
//! The crate holds the protocol itself: checksums, frame layouts, the serial
//! settings of the device and the step-by-step procedures that a transport
//! loop carries out. It performs no input or output of its own.

pub mod checksum;
pub mod config;
pub mod controller;
pub mod error;
pub mod frame;
pub mod procedure;
