//! Bring-up logic for an external parallel memory behind a microcontroller's
//! memory controller: clock sequencing, pin multiplexing, bank timing and the
//! addressing of the mapped window.
//!
//! Nothing in this crate touches hardware. Every component computes what has
//! to be done as plain values (register updates, bus transactions) and decides
//! how to go on from what the hardware answered; the caller performs the
//! accesses. That keeps every decision open to proof.

pub mod access;
pub mod clock;
pub mod pinmux;
pub mod regs;
pub mod tensor;
pub mod timing;
