//! Fatal machine faults.
//!
//! Execution cannot meaningfully continue after any of these: the host is
//! expected to report the fault and stop driving the interpreter.

use vstd::prelude::*;

verus! {

/// A fatal machine fault raised by the interpreter.
///
/// Each variant identifies one of the unrecoverable conditions: an
/// instruction word that matches no known nibble pattern (which carries the
/// offending word so the host can report it), exhaustion of the call stack in
/// either direction, and a memory access outside the addressable range.
#[derive(Clone, Copy, Debug, PartialEq, Eq, Structural)]
pub enum Fault {
    /// The fetched word matches no recognized nibble pattern.
    UnknownInstruction(u16),
    /// A return was executed with an empty call stack.
    StackUnderflow,
    /// A call was executed with the call stack already full.
    StackOverflow,
    /// A fetch, sprite read, register block transfer or program load reached
    /// past the addressable memory range.
    OutOfBounds,
}

} // verus!
