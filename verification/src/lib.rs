//! Host-based emulation of an embedded microkernel's lower half.
//!
//! The kernel runs as an ordinary process and every application is a child
//! process; the two sides exchange fixed-layout datagram frames across the
//! emulated userspace/kernel boundary.  This crate holds the verified core:
//! the wire frames and their codec, the per-process allow-map and the unyield
//! exchange scripts, the emulated process state machine with its work
//! accounting, the boundary driver's stored state and syscall interpretation,
//! the pending-interrupt queue, and the systick model.  All socket, clock,
//! thread and child-process handling lives outside, in the unverified
//! harness, which feeds this crate plain values.

use vstd::prelude::*;

pub mod boundary;
pub mod client;
pub mod emproc;
pub mod interrupt;
pub mod process;
pub mod sched;
pub mod systick;
pub mod wire;

verus! {

/// Errors surfaced by the emulation core and its transport harness.
#[derive(Debug, Clone, PartialEq, Eq)]
pub enum EmulationError {
    /// An operating-system level failure, carried as its message.
    IoError(String),
    /// The interrupt upper-half to lower-half channel closed.
    ChannelError,
    /// A datagram's length differed from the expected frame length:
    /// `PartialMessage(expected, actual)`.
    PartialMessage(usize, usize),
    /// A decode or contract violation, with context.
    Custom(String),
}

} // verus!
