//! What leaves the machine during a run: character output and trace records.

use vstd::prelude::*;
use crate::instr::Instr;
use crate::machine::{Trace, Transcript};

verus! {

/// The record of one traced step.
#[derive(Debug)]
pub struct TraceRecord {
    /// The address of the instruction.
    pub ip: usize,
    /// The instruction.
    pub instr: Instr,
    /// The values of the operands that the instruction read, in operand order.
    pub values: Vec<u16>,
    /// For `call`, the label of the target address, if it has one.
    pub label: Option<String>,
    /// The instruction pointer after the step.
    pub next_ip: usize,
    /// The register file after the step.
    pub registers: Vec<u16>,
    /// The stack depth after the step.
    pub stack_depth: usize,
    /// The top of the stack after the step, or 0 if the stack is empty.
    pub stack_top: u16,
}

impl View for TraceRecord {
    type V = Trace;

    open spec fn view(&self) -> Trace {
        Trace {
            ip: self.ip as nat,
            instr: self.instr,
            values: self.values@,
            label: self.label,
            next_ip: self.next_ip as nat,
            registers: self.registers@,
            stack_depth: self.stack_depth as nat,
            stack_top: self.stack_top,
        }
    }
}

/// Collects what a run emits, in order: the character codes written by `out`
/// and the records of traced steps.
#[derive(Debug)]
pub struct Console {
    pub output: Vec<u8>,
    pub trace: Vec<TraceRecord>,
}

impl View for Console {
    type V = Transcript;

    open spec fn view(&self) -> Transcript {
        Transcript {
            output: self.output@,
            trace: Seq::new(self.trace@.len(), |i: int| self.trace@[i]@),
        }
    }
}

impl Console {
    /// Creates a console that holds nothing.
    pub fn new() -> (c: Console)
        ensures
            c@.output == Seq::<u8>::empty(),
            c@.trace == Seq::<Trace>::empty(),
    {
        Console { output: Vec::new(), trace: Vec::new() }
    }

    /// Removes everything collected so far.
    pub fn clear(&mut self)
        ensures
            final(self)@.output == Seq::<u8>::empty(),
            final(self)@.trace == Seq::<Trace>::empty(),
    {
        self.output.clear();
        self.trace.clear();
    }

    /// Appends the character code `b` to the output.
    pub fn print(&mut self, b: u8)
        ensures
            final(self)@ == old(self)@.printed(b),
    {
        self.output.push(b);
    }

    /// Appends the record of a step, if there is one.
    pub fn record(&mut self, t: Option<TraceRecord>)
        ensures
            final(self)@ == old(self)@.traced(
                match t {
                    Some(t) => Some(t@),
                    None => None,
                },
            ),
    {
        match t {
            Some(t) => {
                self.trace.push(t);
            },
            None => {},
        }
    }
}

} // verus!
