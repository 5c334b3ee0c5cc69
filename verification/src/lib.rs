//! Byte-queue core of a USB CDC serial console for RP2040 / RP2350 boards.
//!
//! The library holds the console's bounded transmit and receive queues and
//! every decision that the console makes about them: what a write queues,
//! what a received chunk adds (with echo), what a read hands back, and which
//! byte the transmit path sends next.  The USB device stack itself is driven
//! by the caller, which passes the outcome of each endpoint call back in.

pub mod byte_queue;
pub mod console;
pub mod laws;
pub mod identity;
