//! The fatal conditions a cycle can raise, the per-cycle control flow, and
//! the terminal state of the run loop.

use vstd::prelude::*;

verus! {

/// A fatal condition. Each is unrecoverable for the current instruction but
/// is reported to the caller rather than aborting the hosting process.
#[derive(Clone, Copy, Debug, PartialEq, Eq, Structural)]
pub enum Fault {
    /// A call was attempted while the call stack was at capacity.
    StackOverflow,
    /// A return was attempted while the call stack was empty.
    StackUnderflow,
    /// The fetched 16-bit value matches no defined operation; carries the
    /// raw opcode for diagnostics.
    UnknownOpcode(u16),
    /// A fetch address falls outside the memory bounds; carries the address.
    AddressOutOfRange(usize),
}

/// What a single fetch-decode-execute cycle decides about the run loop.
#[derive(Clone, Copy, Debug, PartialEq, Eq, Structural)]
pub enum Flow {
    /// Continue with the next cycle.
    Next,
    /// The explicit halt opcode (0x0000) was reached.
    Halt,
    /// A fatal condition stopped the machine.
    Fatal(Fault),
}

/// The terminal state of the run loop: it either halted explicitly or
/// stopped on a fatal condition.
#[derive(Clone, Copy, Debug, PartialEq, Eq, Structural)]
pub enum Outcome {
    Halted,
    Faulted(Fault),
}

/// The control flow that ends the run loop with the given outcome.
pub open spec fn flow_of(outcome: Outcome) -> Flow {
    match outcome {
        Outcome::Halted => Flow::Halt,
        Outcome::Faulted(fault) => Flow::Fatal(fault),
    }
}

} // verus!
