//! The executable machine.

use std::collections::HashMap;
use std::collections::VecDeque;
use vstd::prelude::*;
use crate::console::{Console, TraceRecord};
use crate::instr::{assemble, lemma_decode_opcode, operand_count, Instr};
use crate::machine::{register_destination, yields, Dest, Fetch, Machine};
use crate::outcome::{Event, HaltReason, Stop, VmError};
use crate::word::{code_of, complement, truncate_to_byte, CELLS, LIMIT, REGISTERS};

verus! {

/// A virtual machine: the address space, the stack, the instruction pointer,
/// the input queue, the trace flag and the table of labels.
#[derive(Debug)]
pub struct VM {
    /// The address space: program memory, then the eight registers.
    pub mem: Vec<u16>,
    /// Labels of code addresses, shown in the trace of a `call`.
    pub symbols: HashMap<u16, String>,
    /// The stack, bottom first.
    pub stack: Vec<u16>,
    /// The instruction pointer.
    pub ip: usize,
    /// The characters waiting to be read by `in`, next one first.
    pub input_buffer: VecDeque<char>,
    /// Whether steps are traced.
    pub debug: bool,
    /// Whether an `in` has been dispatched and waits for input.
    pub waiting: bool,
}

impl View for VM {
    type V = Machine;

    open spec fn view(&self) -> Machine {
        Machine {
            mem: self.mem@,
            stack: self.stack@,
            ip: self.ip as nat,
            input: self.input_buffer@,
            debug: self.debug,
            symbols: self.symbols@,
            waiting: self.waiting,
        }
    }
}

impl VM {
    /// The address space has its fixed size, and a machine that waits stands
    /// at an instruction of two cells within it.
    pub open spec fn wf(&self) -> bool {
        self@.wf()
    }

    /// Creates a machine with `input` loaded into program memory from
    /// address 0 on, every other cell of program memory and every register
    /// zero, ready to execute from address 0.
    ///
    /// The image must fit program memory: no word of it is ever placed in a
    /// register.
    pub fn new(input: &Vec<u16>, symbols: &HashMap<u16, String>) -> (vm: VM)
        requires
            input.len() <= LIMIT,
        ensures
            vm.wf(),
            vm@ == Machine::boot(input@, symbols@),
            forall|i: int| 0 <= i < input@.len() ==> vm@.mem[i] == input@[i],
            forall|i: int| input@.len() <= i < CELLS ==> vm@.mem[i] == 0,
            forall|r: int| 0 <= r < REGISTERS ==> vm@.register(r) == 0,
    {
        let mut mem: Vec<u16> = Vec::new();
        let mut i: usize = 0;
        while i < input.len()
            invariant
                i <= input.len() <= LIMIT,
                mem@.len() == i,
                forall|k: int| 0 <= k < i ==> mem@[k] == input@[k],
            decreases input.len() - i,
        {
            mem.push(input[i]);
            i += 1;
        }
        while i < CELLS
            invariant
                input.len() <= i <= CELLS,
                input.len() <= LIMIT,
                mem@.len() == i,
                forall|k: int| 0 <= k < input.len() ==> mem@[k] == input@[k],
                forall|k: int| input.len() <= k < i ==> mem@[k] == 0,
            decreases CELLS - i,
        {
            mem.push(0);
            i += 1;
        }
        let vm = VM {
            mem,
            symbols: symbols.clone(),
            stack: Vec::new(),
            ip: 0,
            input_buffer: VecDeque::new(),
            debug: false,
            waiting: false,
        };
        assert(vm@.mem =~= Machine::boot(input@, symbols@).mem);
        vm
    }

    /// Returns the register number that a register word names, and any other
    /// word unchanged.
    pub fn reg_offset(&self, arg: u16) -> (r: u16)
        ensures
            r == if arg >= LIMIT {
                arg - LIMIT
            } else {
                arg as int
            },
    {
        if arg >= LIMIT {
            arg - LIMIT
        } else {
            arg
        }
    }

    /// Returns the content of register `idx`.
    pub fn regs(&self, idx: u16) -> (r: u16)
        requires
            self.wf(),
            idx < REGISTERS,
        ensures
            r == self@.register(idx as int),
    {
        self.mem[(LIMIT + idx) as usize]
    }

    /// Resolves an operand word to the value it stands for.
    pub fn convert_arg(&self, addr: u16) -> (r: Result<u16, VmError>)
        requires
            self.wf(),
        ensures
            r == self@.value(addr),
    {
        if addr < LIMIT {
            Ok(addr)
        } else if addr < LIMIT + REGISTERS {
            Ok(self.mem[addr as usize])
        } else {
            Err(VmError::InvalidOperand(addr))
        }
    }

    /// Resolves a register-selector word to the register it names, without
    /// reading it as a value.
    pub fn resolve_register_destination(word: u16) -> (r: Result<Dest, VmError>)
        ensures
            r == register_destination(word),
            r matches Ok(d) ==> d.wf(),
    {
        if LIMIT <= word && word < LIMIT + REGISTERS {
            Ok(Dest::Register(word - LIMIT))
        } else {
            Err(VmError::InvalidAddress(word))
        }
    }

    /// Resolves the address operand of a memory write: the operand is read as
    /// a value, which must be an address of program memory.
    pub fn resolve_memory_destination(&self, word: u16) -> (r: Result<Dest, VmError>)
        requires
            self.wf(),
        ensures
            r == self@.memory_destination(word),
            r matches Ok(d) ==> d.wf(),
    {
        match self.convert_arg(word) {
            Ok(v) => if v < LIMIT {
                Ok(Dest::Memory(v))
            } else {
                Err(VmError::InvalidAddress(v))
            },
            Err(e) => Err(e),
        }
    }

    /// Stores `val` in the register or memory cell `dest`.
    pub fn store(&mut self, dest: Dest, val: u16)
        requires
            old(self).wf(),
            dest.wf(),
        ensures
            final(self).wf(),
            final(self)@ == old(self)@.write(dest, val),
    {
        match dest {
            Dest::Register(r) => {
                self.mem[(LIMIT + r) as usize] = val;
            },
            Dest::Memory(m) => {
                self.mem[m as usize] = val;
            },
        }
    }

    /// Pushes `val` on the stack.
    pub fn push(&mut self, val: u16)
        ensures
            final(self)@ == old(self)@.push(val),
    {
        self.stack.push(val);
    }

    /// Removes the top of the stack and returns it; fails, changing nothing,
    /// if the stack is empty.
    pub fn pop(&mut self) -> (r: Result<u16, VmError>)
        ensures
            old(self)@.stack.len() > 0 ==> r == Ok::<u16, VmError>(old(self)@.stack.last())
                && final(self)@ == old(self)@.pop(),
            old(self)@.stack.len() == 0 ==> r == Err::<u16, VmError>(VmError::StackUnderflow)
                && final(self)@ == old(self)@,
    {
        match self.stack.pop() {
            Some(v) => Ok(v),
            None => Err(VmError::StackUnderflow),
        }
    }

    /// Returns the word in cell `i`, or 0 beyond the address space.
    fn peek(&self, i: usize) -> (r: u16)
        ensures
            r == self@.word_at(i as nat),
    {
        if i < self.mem.len() {
            self.mem[i]
        } else {
            0
        }
    }

    /// Decodes what stands at the instruction pointer.
    pub fn fetch(&self) -> (r: Fetch)
        requires
            self.wf(),
        ensures
            r == self@.fetch(),
            r matches Fetch::Decoded(instr) ==> self.ip + instr.width() <= CELLS,
    {
        if self.ip >= self.mem.len() {
            return Fetch::OutOfRange;
        }
        let op = self.mem[self.ip];
        match operand_count(op) {
            None => Fetch::Unknown(op),
            Some(n) => {
                if self.ip + n >= self.mem.len() {
                    Fetch::OutOfRange
                } else {
                    let a = self.peek(self.ip + 1);
                    let b = self.peek(self.ip + 2);
                    let c = self.peek(self.ip + 3);
                    proof {
                        lemma_decode_opcode(op, a, b, c);
                    }
                    match assemble(op, a, b, c) {
                        Some(instr) => Fetch::Decoded(instr),
                        None => Fetch::Unknown(op),
                    }
                }
            },
        }
    }

    /// Stores `v` in the register that the operand word `a` names and moves
    /// on by `width` cells; fails, changing nothing, if `a` names no register.
    fn assign(&mut self, a: u16, v: u16, width: usize) -> (r: Result<Event, VmError>)
        requires
            old(self).wf(),
            old(self).ip + width <= CELLS,
        ensures
            final(self)@.sized(),
            yields(old(self)@.assign(a, v, width as nat), old(self)@, final(self)@, r),
    {
        match Self::resolve_register_destination(a) {
            Ok(d) => {
                self.store(d, v);
                self.ip = self.ip + width;
                Ok(Event::Continue)
            },
            Err(e) => Err(e),
        }
    }

    /// Does what `instr` does to the address space, the stack, the
    /// instruction pointer and the input queue.
    fn effect(&mut self, instr: Instr) -> (r: Result<Event, VmError>)
        requires
            old(self).wf(),
            old(self).ip + instr.width() <= CELLS,
        ensures
            final(self)@.sized(),
            yields(old(self)@.effect(instr), old(self)@, final(self)@, r),
    {
        match instr {
            Instr::Halt => Ok(Event::Halted(HaltReason::Explicit)),
            Instr::SetReg { a, b } => match self.convert_arg(b) {
                Ok(v) => self.assign(a, v, 3),
                Err(e) => Err(e),
            },
            Instr::Push { a } => match self.convert_arg(a) {
                Ok(v) => {
                    self.push(v);
                    self.ip = self.ip + 2;
                    Ok(Event::Continue)
                },
                Err(e) => Err(e),
            },
            Instr::Pop { a } => {
                if self.stack.len() == 0 {
                    return Err(VmError::StackUnderflow);
                }
                match Self::resolve_register_destination(a) {
                    Ok(d) => match self.pop() {
                        Ok(v) => {
                            self.store(d, v);
                            self.ip = self.ip + 2;
                            Ok(Event::Continue)
                        },
                        Err(e) => Err(e),
                    },
                    Err(e) => Err(e),
                }
            },
            Instr::Binary { op, a, b, c } => match self.convert_arg(b) {
                Ok(x) => match self.convert_arg(c) {
                    Ok(y) => match op.eval(x, y) {
                        Some(v) => self.assign(a, v, 4),
                        None => Err(VmError::DivisionByZero),
                    },
                    Err(e) => Err(e),
                },
                Err(e) => Err(e),
            },
            Instr::Jmp { a } => match self.convert_arg(a) {
                Ok(t) => {
                    self.ip = t as usize;
                    Ok(Event::Continue)
                },
                Err(e) => Err(e),
            },
            Instr::Jt { a, b } => match self.convert_arg(a) {
                Ok(x) => match self.convert_arg(b) {
                    Ok(t) => {
                        if x != 0 {
                            self.ip = t as usize;
                        } else {
                            self.ip = self.ip + 3;
                        }
                        Ok(Event::Continue)
                    },
                    Err(e) => Err(e),
                },
                Err(e) => Err(e),
            },
            Instr::Jf { a, b } => match self.convert_arg(a) {
                Ok(x) => match self.convert_arg(b) {
                    Ok(t) => {
                        if x == 0 {
                            self.ip = t as usize;
                        } else {
                            self.ip = self.ip + 3;
                        }
                        Ok(Event::Continue)
                    },
                    Err(e) => Err(e),
                },
                Err(e) => Err(e),
            },
            Instr::Not { a, b } => match self.convert_arg(b) {
                Ok(x) => self.assign(a, complement(x), 3),
                Err(e) => Err(e),
            },
            Instr::Rmem { a, b } => match self.convert_arg(b) {
                Ok(addr) => if (addr as usize) < CELLS {
                    let v = self.mem[addr as usize];
                    self.assign(a, v, 3)
                } else {
                    Err(VmError::InvalidAddress(addr))
                },
                Err(e) => Err(e),
            },
            Instr::Wmem { a, b } => match self.resolve_memory_destination(a) {
                Ok(d) => match self.convert_arg(b) {
                    Ok(v) => {
                        self.store(d, v);
                        self.ip = self.ip + 3;
                        Ok(Event::Continue)
                    },
                    Err(e) => Err(e),
                },
                Err(e) => Err(e),
            },
            Instr::Call { a } => match self.convert_arg(a) {
                Ok(t) => {
                    self.push((self.ip + 2) as u16);
                    self.ip = t as usize;
                    Ok(Event::Continue)
                },
                Err(e) => Err(e),
            },
            Instr::Ret => match self.pop() {
                Ok(t) => {
                    self.ip = t as usize;
                    Ok(Event::Continue)
                },
                Err(_) => Ok(Event::Halted(HaltReason::Return)),
            },
            Instr::Out { a } => match self.convert_arg(a) {
                Ok(v) => {
                    self.ip = self.ip + 2;
                    Ok(Event::Output(truncate_to_byte(v)))
                },
                Err(e) => Err(e),
            },
            Instr::In { a } => {
                if self.input_buffer.len() == 0 {
                    return Ok(Event::NeedInput);
                }
                match Self::resolve_register_destination(a) {
                    Ok(d) => {
                        let c = self.input_buffer.pop_front().unwrap();
                        self.store(d, code_of(c));
                        self.ip = self.ip + 2;
                        Ok(Event::Continue)
                    },
                    Err(e) => Err(e),
                }
            },
            Instr::Noop => {
                self.ip = self.ip + 1;
                Ok(Event::Continue)
            },
        }
    }

    /// Executes `instr` as the instruction at the instruction pointer.
    ///
    /// On a fault the machine is left unchanged. Afterwards the machine
    /// waits if and only if `instr` was an `in` that found the input queue
    /// empty.
    pub fn execute(&mut self, instr: Instr) -> (r: Result<Event, VmError>)
        requires
            old(self).wf(),
            old(self).ip + instr.width() <= CELLS,
        ensures
            final(self).wf(),
            yields(old(self)@.execute(instr), old(self)@, final(self)@, r),
    {
        let r = self.effect(instr);
        match r {
            Ok(Event::NeedInput) => {
                self.waiting = true;
            },
            Ok(_) => {
                self.waiting = false;
            },
            Err(_) => {},
        }
        r
    }

    /// Returns what the next step executes: the `in` that waits, with the
    /// destination that stands behind it now, or else what stands at the
    /// instruction pointer.
    pub fn dispatch(&self) -> (r: Fetch)
        requires
            self.wf(),
        ensures
            r == self@.dispatch(),
            r matches Fetch::Decoded(instr) ==> self.ip + instr.width() <= CELLS,
    {
        if self.waiting {
            Fetch::Decoded(Instr::In { a: self.mem[self.ip + 1] })
        } else {
            self.fetch()
        }
    }

    /// Performs one step: completes the `in` that waits, or else fetches,
    /// decodes and executes the instruction at the instruction pointer.
    ///
    /// On a fault the machine is left unchanged.
    pub fn step(&mut self) -> (r: Result<Event, VmError>)
        requires
            old(self).wf(),
        ensures
            final(self).wf(),
            yields(old(self)@.step(), old(self)@, final(self)@, r),
    {
        match self.dispatch() {
            Fetch::OutOfRange => Ok(Event::Halted(HaltReason::OutOfRange)),
            Fetch::Unknown(op) => Err(VmError::InvalidOpcode(op)),
            Fetch::Decoded(instr) => self.execute(instr),
        }
    }

    /// Returns the register file, register 0 first.
    pub fn registers(&self) -> (r: Vec<u16>)
        requires
            self.wf(),
        ensures
            r@ == self@.registers(),
    {
        let mut r: Vec<u16> = Vec::new();
        let mut i: u16 = 0;
        while i < REGISTERS
            invariant
                self.wf(),
                i <= REGISTERS,
                r@ == self.mem@.subrange(LIMIT as int, LIMIT + i),
            decreases REGISTERS - i,
        {
            r.push(self.regs(i));
            i += 1;
        }
        r
    }

    /// Returns the label of the code address `target`, if it has one.
    pub fn symbol(&self, target: u16) -> (r: Option<&String>)
        ensures
            match r {
                Some(s) => self@.label_of(target) == Some(*s),
                None => self@.label_of(target) is None,
            },
    {
        broadcast use vstd::std_specs::hash::group_hash_axioms;

        self.symbols.get(&target)
    }

    /// Resolves each of `words` to its value; `None` if one of them is no
    /// valid operand.
    fn resolve_all(&self, words: &Vec<u16>) -> (r: Option<Vec<u16>>)
        requires
            self.wf(),
        ensures
            match r {
                Some(v) => {
                    &&& v@.len() == words@.len()
                    &&& forall|k: int|
                        0 <= k < words@.len() ==> self@.value(words@[k]) == Ok::<u16, VmError>(
                            v@[k],
                        )
                },
                None => exists|k: int| 0 <= k < words@.len() && self@.value(words@[k]) is Err,
            },
    {
        let mut v: Vec<u16> = Vec::new();
        let mut i: usize = 0;
        while i < words.len()
            invariant
                self.wf(),
                i <= words@.len(),
                v@.len() == i,
                forall|k: int|
                    0 <= k < i ==> self@.value(words@[k]) == Ok::<u16, VmError>(v@[k]),
            decreases words.len() - i,
        {
            match self.convert_arg(words[i]) {
                Ok(x) => {
                    v.push(x);
                },
                Err(_) => {
                    return None;
                },
            }
            i += 1;
        }
        Some(v)
    }

    /// Performs one step and, if tracing is on and the step executed an
    /// instruction to its end, returns the record of it.
    ///
    /// Tracing observes only: the machine ends in the same state, and the
    /// step has the same result, as with `step`.
    pub fn step_traced(&mut self) -> (r: (Result<Event, VmError>, Option<TraceRecord>))
        requires
            old(self).wf(),
        ensures
            final(self).wf(),
            yields(old(self)@.step(), old(self)@, final(self)@, r.0),
            match r.1 {
                Some(t) => old(self)@.trace() == Some(t@),
                None => old(self)@.trace() is None,
            },
    {
        if !self.debug {
            return (self.step(), None);
        }
        let fetched = self.dispatch();
        match fetched {
            Fetch::Decoded(instr) => {
                let ip = self.ip;
                let values = self.resolve_all(&instr.source_words());
                let label = match instr {
                    Instr::Call { a } => match self.convert_arg(a) {
                        Ok(t) => match self.symbol(t) {
                            Some(s) => Some(s.clone()),
                            None => None,
                        },
                        Err(_) => None,
                    },
                    _ => None,
                };
                let r = self.execute(instr);
                let ran = match r {
                    Ok(Event::Continue) | Ok(Event::Output(_)) | Ok(
                        Event::Halted(HaltReason::Explicit),
                    ) => true,
                    _ => false,
                };
                match values {
                    Some(values) => {
                        if ran {
                            let stack_top = if self.stack.len() > 0 {
                                self.stack[self.stack.len() - 1]
                            } else {
                                0
                            };
                            let t = TraceRecord {
                                ip,
                                instr,
                                values,
                                label,
                                next_ip: self.ip,
                                registers: self.registers(),
                                stack_depth: self.stack.len(),
                                stack_top,
                            };
                            (r, Some(t))
                        } else {
                            (r, None)
                        }
                    },
                    None => (r, None),
                }
            },
            Fetch::OutOfRange => (Ok(Event::Halted(HaltReason::OutOfRange)), None),
            Fetch::Unknown(op) => (Err(VmError::InvalidOpcode(op)), None),
        }
    }

    /// Runs the machine for at most `max_steps` steps, adding to `console`
    /// what the steps emit.
    ///
    /// Returns at the first step that halts, faults or finds the input queue
    /// empty, and otherwise when the steps are used up. Input is supplied
    /// between runs with `add_to_buffer` or `feed_line`; the next run then
    /// begins by completing the `in` that waited.
    pub fn run(&mut self, console: &mut Console, max_steps: usize) -> (r: Result<Stop, VmError>)
        requires
            old(self).wf(),
        ensures
            final(self).wf(),
            final(self)@ == old(self)@.run(old(console)@, max_steps as nat).0,
            final(console)@ == old(self)@.run(old(console)@, max_steps as nat).1,
            r == old(self)@.run(old(console)@, max_steps as nat).2,
    {
        let mut left: usize = max_steps;
        while left > 0
            invariant
                self.wf(),
                self@.run(console@, left as nat) == old(self)@.run(
                    old(console)@,
                    max_steps as nat,
                ),
            decreases left,
        {
            let (r, t) = self.step_traced();
            console.record(t);
            match r {
                Ok(Event::Continue) => {},
                Ok(Event::Output(b)) => {
                    console.print(b);
                },
                Ok(Event::NeedInput) => {
                    return Ok(Stop::NeedInput);
                },
                Ok(Event::Halted(reason)) => {
                    return Ok(Stop::Halted(reason));
                },
                Err(e) => {
                    return Err(e);
                },
            }
            left -= 1;
        }
        Ok(Stop::OutOfSteps)
    }
}

} // verus!
