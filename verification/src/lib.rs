//! A virtual machine for a 22-instruction, 16-bit-word architecture with a
//! unified address space, a stack and a line-buffered input queue.
//!
//! [`machine`] holds the mathematical model: the state and its transition
//! function. [`vm`] holds the executable machine, which is proved to follow
//! the model step by step; [`channel`] adds its input side. [`laws`] states
//! what holds of every state.

pub mod channel;
pub mod console;
pub mod directive;
pub mod image;
pub mod instr;
pub mod laws;
pub mod machine;
pub mod outcome;
pub mod symbols;
pub mod text;
pub mod vm;
pub mod word;

pub use crate::console::{Console, TraceRecord};
pub use crate::directive::{Command, Directive, DirectiveError};
pub use crate::image::{decode_image, ImageError};
pub use crate::instr::Instr;
pub use crate::machine::{Dest, Fetch};
pub use crate::outcome::{Event, HaltReason, Stop, VmError};
pub use crate::symbols::{parse_symbol_line, parse_symbols, SymbolError};
pub use crate::vm::VM;
pub use crate::word::BinOp;
