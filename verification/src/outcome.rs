//! What a step of the machine reports: an event, or the fault that stopped it.

use vstd::prelude::*;

verus! {

/// Why the machine stopped without a fault.
#[derive(Clone, Copy, Debug, PartialEq, Eq, Structural)]
pub enum HaltReason {
    /// A `halt` instruction was executed.
    Explicit,
    /// A `ret` instruction found the stack empty.
    Return,
    /// The instruction pointer, or an operand of the instruction it points
    /// at, lies beyond the address space.
    OutOfRange,
}

/// A fatal condition. The machine is left as it was before the failing step,
/// so the instruction pointer still names the offending instruction.
#[derive(Clone, Copy, Debug, PartialEq, Eq, Structural)]
pub enum VmError {
    /// An operand read as a value is neither a literal nor a register word.
    InvalidOperand(u16),
    /// A destination operand is not a register word, or a memory address is
    /// outside the cells the instruction may touch.
    InvalidAddress(u16),
    /// The word at the instruction pointer is no opcode.
    InvalidOpcode(u16),
    /// `pop` found the stack empty.
    StackUnderflow,
    /// `mod` was asked for a remainder by zero.
    DivisionByZero,
}

/// The visible result of one successful step.
#[derive(Clone, Copy, Debug, PartialEq, Eq, Structural)]
pub enum Event {
    /// The instruction completed; nothing left the machine.
    Continue,
    /// `out` emitted this character code.
    Output(u8),
    /// `in` found the input queue empty. The machine has not moved; it
    /// waits, and the next step completes this `in`.
    NeedInput,
    /// The machine halted.
    Halted(HaltReason),
}

/// Why a bounded run returned.
#[derive(Clone, Copy, Debug, PartialEq, Eq, Structural)]
pub enum Stop {
    /// The step budget was used up; the machine can go on.
    OutOfSteps,
    /// `in` found the input queue empty. Once input has been supplied, the
    /// next run completes this `in`.
    NeedInput,
    /// The machine halted.
    Halted(HaltReason),
}

} // verus!
