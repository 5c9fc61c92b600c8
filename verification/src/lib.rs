//! A verified CHIP-8 interpreter core.
//!
//! The machine state (memory, registers, stack, display, timers) is modelled
//! by the ghost `Machine` record, and every instruction's effect is stated by
//! the spec-level transition `spec_execute`. The executable interpreter is
//! proved to follow that transition exactly; fatal conditions (stack
//! over/underflow, out-of-range accesses, unrecognized instructions) surface
//! as `Fault` values instead of panics. The host runtime that owns the event
//! loop, rendering and ROM loading drives the core through `ChipState::step`.

pub mod decode;
pub mod display;
pub mod fault;
pub mod interpreter;
pub mod laws;
pub mod machine;

pub use decode::Opcode;
pub use display::Display;
pub use fault::Fault;
pub use interpreter::ChipState;
