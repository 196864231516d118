//! Core of a telemetry-to-hardware pipeline: decodes binary telemetry
//! datagrams from a running simulation, discovers which supported simulation
//! is running, drives the acquisition and device-liveness state machines, and
//! encodes the command buffers understood by the attached output devices.
//!
//! All I/O (UDP, USB-HID, process enumeration, timers) lives outside this
//! library; every function here is a pure decision or codec step with a
//! verified contract.

pub mod backend;
pub mod channel;
pub mod hardware;
pub mod telemetry;
pub mod wire;
