//! The mathematical model of the machine: its state and its transition
//! function. The executable machine is specified against this model.

use vstd::prelude::*;
use crate::instr::{arity, decode, Instr};
use crate::outcome::{Event, HaltReason, Stop, VmError};
use crate::word::{char_code, low_byte, not15, CELLS, LIMIT, REGISTERS};

verus! {

/// A place a word can be stored: a register, by its number, or a cell of
/// program memory, by its address.
#[derive(Clone, Copy, Debug, PartialEq, Eq, Structural)]
pub enum Dest {
    Register(u16),
    Memory(u16),
}

impl Dest {
    /// The register number is below 8, or the address is in program memory.
    pub open spec fn wf(self) -> bool {
        match self {
            Dest::Register(r) => r < REGISTERS,
            Dest::Memory(m) => m < LIMIT,
        }
    }

    /// The index of the destination in the address space.
    pub open spec fn cell(self) -> int {
        match self {
            Dest::Register(r) => LIMIT + r,
            Dest::Memory(m) => m as int,
        }
    }
}

/// What stands at the instruction pointer.
#[derive(Clone, Copy, Debug, PartialEq, Eq, Structural)]
pub enum Fetch {
    /// The instruction pointer, or an operand of the instruction it points
    /// at, lies beyond the address space.
    OutOfRange,
    /// The word at the instruction pointer is no opcode.
    Unknown(u16),
    /// The instruction at the instruction pointer.
    Decoded(Instr),
}

/// The destination that a register-selector word names: register `word -
/// 32768` for a word in `32768..=32775`. Any other word is rejected; the word
/// is never read as a value.
pub open spec fn register_destination(word: u16) -> Result<Dest, VmError> {
    if LIMIT <= word < LIMIT + REGISTERS {
        Ok(Dest::Register((word - LIMIT) as u16))
    } else {
        Err(VmError::InvalidAddress(word))
    }
}

/// What a traced step shows of the machine.
#[verifier::ext_equal]
pub struct Trace {
    /// The address of the instruction.
    pub ip: nat,
    /// The instruction.
    pub instr: Instr,
    /// The values of the operands that the instruction reads, in operand
    /// order, as they were before the step.
    pub values: Seq<u16>,
    /// For `call`, the label of the target address, if it has one.
    pub label: Option<String>,
    /// The instruction pointer after the step.
    pub next_ip: nat,
    /// The register file after the step.
    pub registers: Seq<u16>,
    /// The stack depth after the step.
    pub stack_depth: nat,
    /// The top of the stack after the step, or 0 if the stack is empty.
    pub stack_top: u16,
}

/// What a run has emitted so far: the character codes written by `out` and
/// the trace of the steps taken while tracing was on.
#[verifier::ext_equal]
pub struct Transcript {
    pub output: Seq<u8>,
    pub trace: Seq<Trace>,
}

impl Transcript {
    /// The transcript with the character code `b` written.
    pub open spec fn printed(self, b: u8) -> Transcript {
        Transcript { output: self.output.push(b), ..self }
    }

    /// The transcript with the trace of one step added, if the step had one.
    pub open spec fn traced(self, t: Option<Trace>) -> Transcript {
        match t {
            Some(t) => Transcript { trace: self.trace.push(t), ..self },
            None => self,
        }
    }
}

/// The event is that of an instruction that ran to its end: it was not
/// waiting for input, and the machine did not halt for want of a return
/// address or of an instruction.
pub open spec fn completed(e: Event) -> bool {
    e is Continue || e is Output || e == Event::Halted(HaltReason::Explicit)
}

/// The state of the machine.
#[verifier::ext_equal]
pub struct Machine {
    /// The address space: program memory in cells `0..32768`, then the eight
    /// registers.
    pub mem: Seq<u16>,
    /// The stack, bottom first.
    pub stack: Seq<u16>,
    /// The instruction pointer.
    pub ip: nat,
    /// The characters waiting to be read by `in`, next one first.
    pub input: Seq<char>,
    /// Whether steps are traced.
    pub debug: bool,
    /// Labels of code addresses, for trace annotation only.
    pub symbols: Map<u16, String>,
    /// Whether an `in` has been dispatched and waits for input. The next
    /// step then completes that `in`, whatever has been written to its
    /// opcode cell in the meantime.
    pub waiting: bool,
}

impl Machine {
    /// The machine right after loading `image`, which has at most 32768
    /// words, at address 0: the image stands in program memory, every other
    /// cell of program memory and every register is zero, the stack and the
    /// input queue are empty, execution starts at address 0, tracing is off
    /// and no `in` waits.
    pub open spec fn boot(image: Seq<u16>, symbols: Map<u16, String>) -> Machine {
        Machine {
            mem: Seq::new(
                CELLS as nat,
                |i: int|
                    if i < image.len() && i < LIMIT {
                        image[i]
                    } else {
                        0u16
                    },
            ),
            stack: Seq::empty(),
            ip: 0,
            input: Seq::empty(),
            debug: false,
            symbols,
            waiting: false,
        }
    }

    /// The address space has its fixed size.
    pub open spec fn sized(self) -> bool {
        self.mem.len() == CELLS
    }

    /// The address space has its fixed size, and a machine that waits stands
    /// at an instruction of two cells within it: the `in` it has dispatched.
    pub open spec fn wf(self) -> bool {
        &&& self.sized()
        &&& self.waiting ==> self.ip + 2 <= CELLS
    }

    /// The content of register `i`.
    pub open spec fn register(self, i: int) -> u16 {
        self.mem[LIMIT + i]
    }

    /// The register file, register 0 first.
    pub open spec fn registers(self) -> Seq<u16> {
        self.mem.subrange(LIMIT as int, CELLS as int)
    }

    /// The value an operand word stands for: itself below 32768, the content
    /// of the register it names in `32768..=32775`; any other word is invalid.
    pub open spec fn value(self, word: u16) -> Result<u16, VmError> {
        if word < LIMIT {
            Ok(word)
        } else if word < LIMIT + REGISTERS {
            Ok(self.mem[word as int])
        } else {
            Err(VmError::InvalidOperand(word))
        }
    }

    /// The memory cell that an address operand names: the operand is read as
    /// a value, and that value must be an address of program memory. A
    /// register is never the result.
    pub open spec fn memory_destination(self, word: u16) -> Result<Dest, VmError> {
        match self.value(word) {
            Ok(v) => if v < LIMIT {
                Ok(Dest::Memory(v))
            } else {
                Err(VmError::InvalidAddress(v))
            },
            Err(e) => Err(e),
        }
    }

    /// The machine with `v` stored at `dest`.
    pub open spec fn write(self, dest: Dest, v: u16) -> Machine {
        Machine { mem: self.mem.update(dest.cell(), v), ..self }
    }

    /// The machine with the instruction pointer moved `n` cells on.
    pub open spec fn advance(self, n: nat) -> Machine {
        Machine { ip: self.ip + n, ..self }
    }

    /// The machine with the instruction pointer set to `target`.
    pub open spec fn jump(self, target: u16) -> Machine {
        Machine { ip: target as nat, ..self }
    }

    /// The machine with `v` pushed on the stack.
    pub open spec fn push(self, v: u16) -> Machine {
        Machine { stack: self.stack.push(v), ..self }
    }

    /// The machine with the top of the stack removed.
    pub open spec fn pop(self) -> Machine {
        Machine { stack: self.stack.drop_last(), ..self }
    }

    /// The machine with the characters of `line` and a line terminator
    /// appended to the input queue.
    pub open spec fn enqueue(self, line: Seq<char>) -> Machine {
        Machine { input: self.input + line.push('\n'), ..self }
    }

    /// The machine with the first character of the input queue removed.
    pub open spec fn consume(self) -> Machine {
        Machine { input: self.input.subrange(1, self.input.len() as int), ..self }
    }

    /// The word in cell `i`, or 0 beyond the address space.
    pub open spec fn word_at(self, i: nat) -> u16 {
        if i < self.mem.len() {
            self.mem[i as int]
        } else {
            0
        }
    }

    /// What stands at the instruction pointer.
    pub open spec fn fetch(self) -> Fetch {
        if self.ip >= self.mem.len() {
            Fetch::OutOfRange
        } else {
            let op = self.mem[self.ip as int];
            if op > 21 {
                Fetch::Unknown(op)
            } else if self.ip + arity(op) >= self.mem.len() {
                Fetch::OutOfRange
            } else {
                Fetch::Decoded(
                    decode(
                        op,
                        self.word_at(self.ip + 1),
                        self.word_at(self.ip + 2),
                        self.word_at(self.ip + 3),
                    )->0,
                )
            }
        }
    }

    /// Stores `v` in the register that the operand word `a` names and moves
    /// on by `width` cells; fails if `a` names no register.
    pub open spec fn assign(self, a: u16, v: u16, width: nat) -> Result<(Machine, Event), VmError> {
        match register_destination(a) {
            Ok(d) => Ok((self.write(d, v).advance(width), Event::Continue)),
            Err(e) => Err(e),
        }
    }

    /// What executing `instr` at the instruction pointer does to the address
    /// space, the stack, the instruction pointer and the input queue, and the
    /// event it gives, or the fault.
    ///
    /// Sources are read before anything is written: the operands read as
    /// values from left to right, then what the operation itself needs (a
    /// stack entry, a non-zero divisor, a cell to read), and the destination
    /// register last. The first failure is the fault.
    ///
    /// `rmem` reads any cell of the address space, so an address from 32768
    /// to 32775 reads a register. `wmem` writes program memory only.
    pub open spec fn effect(self, instr: Instr) -> Result<(Machine, Event), VmError> {
        match instr {
            Instr::Halt => Ok((self, Event::Halted(HaltReason::Explicit))),
            Instr::SetReg { a, b } => match self.value(b) {
                Ok(v) => self.assign(a, v, 3),
                Err(e) => Err(e),
            },
            Instr::Push { a } => match self.value(a) {
                Ok(v) => Ok((self.push(v).advance(2), Event::Continue)),
                Err(e) => Err(e),
            },
            Instr::Pop { a } => if self.stack.len() == 0 {
                Err(VmError::StackUnderflow)
            } else {
                self.pop().assign(a, self.stack.last(), 2)
            },
            Instr::Binary { op, a, b, c } => match self.value(b) {
                Ok(x) => match self.value(c) {
                    Ok(y) => match op.apply(x, y) {
                        Some(v) => self.assign(a, v, 4),
                        None => Err(VmError::DivisionByZero),
                    },
                    Err(e) => Err(e),
                },
                Err(e) => Err(e),
            },
            Instr::Jmp { a } => match self.value(a) {
                Ok(t) => Ok((self.jump(t), Event::Continue)),
                Err(e) => Err(e),
            },
            Instr::Jt { a, b } => match self.value(a) {
                Ok(x) => match self.value(b) {
                    Ok(t) => Ok((if x != 0 { self.jump(t) } else { self.advance(3) }, Event::Continue)),
                    Err(e) => Err(e),
                },
                Err(e) => Err(e),
            },
            Instr::Jf { a, b } => match self.value(a) {
                Ok(x) => match self.value(b) {
                    Ok(t) => Ok((if x == 0 { self.jump(t) } else { self.advance(3) }, Event::Continue)),
                    Err(e) => Err(e),
                },
                Err(e) => Err(e),
            },
            Instr::Not { a, b } => match self.value(b) {
                Ok(x) => self.assign(a, not15(x), 3),
                Err(e) => Err(e),
            },
            Instr::Rmem { a, b } => match self.value(b) {
                Ok(addr) => if addr < CELLS {
                    self.assign(a, self.mem[addr as int], 3)
                } else {
                    Err(VmError::InvalidAddress(addr))
                },
                Err(e) => Err(e),
            },
            Instr::Wmem { a, b } => match self.memory_destination(a) {
                Ok(d) => match self.value(b) {
                    Ok(v) => Ok((self.write(d, v).advance(3), Event::Continue)),
                    Err(e) => Err(e),
                },
                Err(e) => Err(e),
            },
            Instr::Call { a } => match self.value(a) {
                Ok(t) => Ok((self.push((self.ip + 2) as u16).jump(t), Event::Continue)),
                Err(e) => Err(e),
            },
            Instr::Ret => if self.stack.len() == 0 {
                Ok((self, Event::Halted(HaltReason::Return)))
            } else {
                Ok((self.pop().jump(self.stack.last()), Event::Continue))
            },
            Instr::Out { a } => match self.value(a) {
                Ok(v) => Ok((self.advance(2), Event::Output(low_byte(v)))),
                Err(e) => Err(e),
            },
            Instr::In { a } => if self.input.len() == 0 {
                Ok((self, Event::NeedInput))
            } else {
                self.consume().assign(a, char_code(self.input[0]), 2)
            },
            Instr::Noop => Ok((self.advance(1), Event::Continue)),
        }
    }

    /// The effect of executing `instr` at the instruction pointer: the next
    /// state and the event, or the fault.
    ///
    /// The machine waits after an `in` that found the input queue empty,
    /// and after no other instruction.
    pub open spec fn execute(self, instr: Instr) -> Result<(Machine, Event), VmError> {
        match self.effect(instr) {
            Ok((next, e)) => Ok((Machine { waiting: e == Event::NeedInput, ..next }, e)),
            Err(e) => Err(e),
        }
    }

    /// What the next step executes. A machine that waits completes the `in`
    /// it has dispatched: the opcode cell is not read again, and the
    /// destination is the word that stands behind it now. Any other machine
    /// fetches.
    pub open spec fn dispatch(self) -> Fetch {
        if self.waiting {
            Fetch::Decoded(Instr::In { a: self.word_at(self.ip + 1) })
        } else {
            self.fetch()
        }
    }

    /// One step of the machine: dispatch and execute.
    ///
    /// An instruction pointer beyond the address space halts the machine; a
    /// word that is no opcode is a fault.
    pub open spec fn step(self) -> Result<(Machine, Event), VmError> {
        match self.dispatch() {
            Fetch::OutOfRange => Ok((self, Event::Halted(HaltReason::OutOfRange))),
            Fetch::Unknown(op) => Err(VmError::InvalidOpcode(op)),
            Fetch::Decoded(instr) => self.execute(instr),
        }
    }

    /// The value of the operand word `word`, or 0 if it is invalid.
    pub open spec fn value_or_zero(self, word: u16) -> u16 {
        match self.value(word) {
            Ok(v) => v,
            Err(_) => 0,
        }
    }

    /// The values of the operands that `instr` reads, in operand order.
    pub open spec fn values(self, instr: Instr) -> Seq<u16> {
        Seq::new(instr.sources().len(), |k: int| self.value_or_zero(instr.sources()[k]))
    }

    /// The label of the code address `target`, if it has one.
    pub open spec fn label_of(self, target: u16) -> Option<String> {
        if self.symbols.contains_key(target) {
            Some(self.symbols[target])
        } else {
            None
        }
    }

    /// The label that annotates `instr`: that of the target of a `call`.
    pub open spec fn label(self, instr: Instr) -> Option<String> {
        match instr {
            Instr::Call { a } => self.label_of(self.value_or_zero(a)),
            _ => None,
        }
    }

    /// The top of the stack, or 0 if the stack is empty.
    pub open spec fn stack_top(self) -> u16 {
        if self.stack.len() > 0 {
            self.stack.last()
        } else {
            0
        }
    }

    /// What the next step shows when it is traced: nothing unless tracing is
    /// on and the step executes an instruction to its end; otherwise the
    /// instruction with its address and the values it read, and the
    /// instruction pointer, the registers and the stack as the step leaves
    /// them.
    pub open spec fn trace(self) -> Option<Trace> {
        match self.dispatch() {
            Fetch::Decoded(instr) => match self.execute(instr) {
                Ok((after, e)) => if self.debug && completed(e) {
                    Some(
                        Trace {
                            ip: self.ip,
                            instr,
                            values: self.values(instr),
                            label: self.label(instr),
                            next_ip: after.ip,
                            registers: after.registers(),
                            stack_depth: after.stack.len(),
                            stack_top: after.stack_top(),
                        },
                    )
                } else {
                    None
                },
                Err(_) => None,
            },
            _ => None,
        }
    }

    /// A run of at most `fuel` steps that adds what it emits to `console`:
    /// the final state, the transcript, and why the run ended.
    ///
    /// The run ends at the first step that halts, faults or waits for input,
    /// and otherwise when the steps are used up.
    pub open spec fn run(self, console: Transcript, fuel: nat) -> (
        Machine,
        Transcript,
        Result<Stop, VmError>,
    )
        decreases fuel,
    {
        if fuel == 0 {
            (self, console, Ok(Stop::OutOfSteps))
        } else {
            let console = console.traced(self.trace());
            match self.step() {
                Ok((next, Event::Continue)) => next.run(console, (fuel - 1) as nat),
                Ok((next, Event::Output(b))) => next.run(console.printed(b), (fuel - 1) as nat),
                Ok((next, Event::NeedInput)) => (next, console, Ok(Stop::NeedInput)),
                Ok((next, Event::Halted(reason))) => (next, console, Ok(Stop::Halted(reason))),
                Err(e) => (self, console, Err(e)),
            }
        }
    }
}

/// An executable operation that went from `before` to `after` and returned
/// `r` did what `expected` says: on success the next state and the event are
/// the expected ones, on a fault the machine is unchanged.
pub open spec fn yields(
    expected: Result<(Machine, Event), VmError>,
    before: Machine,
    after: Machine,
    r: Result<Event, VmError>,
) -> bool {
    match expected {
        Ok((m, e)) => after =~= m && r == Ok::<Event, VmError>(e),
        Err(e) => after =~= before && r == Err::<Event, VmError>(e),
    }
}

} // verus!
