//! Decoder for the byte stream produced by an ARM Cortex-M Instrumentation
//! Trace Macrocell (ITM): it extracts the payload bytes addressed to one
//! stimulus port and hands them to the caller for forwarding.
//!
//! The crate is organised in three layers:
//! - [`packet`] models header bytes, payloads and decode outcomes;
//! - [`decoder`] consumes one packet from a buffered byte stream;
//! - [`stream`] drives the decoder over a whole buffer and gives the
//!   stream loop its state machine.

pub mod decoder;
pub mod packet;
pub mod stream;
