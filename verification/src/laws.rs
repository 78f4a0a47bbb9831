//! Laws of the machine: what holds of every state and every operand.

use vstd::prelude::*;
use crate::channel::{deliver, deliver_all};
use crate::directive::is_directive;
use crate::instr::{lemma_decode_encoding, lemma_decode_opcode, Instr};
use crate::machine::{register_destination, Dest, Fetch, Machine, Transcript};
use crate::outcome::{Event, HaltReason, Stop, VmError};
use crate::word::{char_code, not15, BinOp, CELLS, LIMIT, REGISTERS};

verus! {

/// Fetching reads an instruction as it is encoded: the fetch yields `instr`
/// exactly when the cells from the instruction pointer on hold the opcode of
/// `instr` followed by its operands, all within the address space.
pub proof fn law_fetch_reads_encoding(m: Machine, instr: Instr)
    ensures
        m.fetch() == Fetch::Decoded(instr) <==> m.ip + instr.width() <= m.mem.len()
            && m.mem.subrange(m.ip as int, (m.ip + instr.width()) as int) == instr.encoding(),
{
    let ip = m.ip as int;
    let w = instr.width() as int;
    lemma_decode_encoding(instr);
    if m.ip + instr.width() <= m.mem.len() && m.mem.subrange(ip, ip + w) == instr.encoding() {
        let cells = m.mem.subrange(ip, ip + w);
        assert(cells[0] == instr.opcode());
        assert forall|k: int| 0 <= k < instr.operands().len() implies m.mem[ip + 1 + k]
            == instr.operands()[k] by {
            assert(cells[k + 1] == instr.encoding()[k + 1]);
        }
    }
    if m.fetch() == Fetch::Decoded(instr) {
        let op = m.mem[ip];
        lemma_decode_opcode(op, m.word_at(m.ip + 1), m.word_at(m.ip + 2), m.word_at(m.ip + 3));
        assert(m.mem.subrange(ip, ip + w) =~= instr.encoding());
    }
}

/// Loading never touches the registers: whatever the image, every register
/// is zero after it, the address space has its size, and an image that fits
/// program memory stands at the front of it with zeros behind.
pub proof fn law_boot_zeroes_registers(image: Seq<u16>, symbols: Map<u16, String>)
    ensures
        Machine::boot(image, symbols).wf(),
        !Machine::boot(image, symbols).waiting,
        forall|r: int| 0 <= r < REGISTERS ==> Machine::boot(image, symbols).register(r) == 0,
        image.len() <= LIMIT ==> Machine::boot(image, symbols).mem.take(image.len() as int)
            == image,
        forall|i: int| image.len() <= i < CELLS ==> Machine::boot(image, symbols).mem[i] == 0,
{
    if image.len() <= LIMIT {
        assert(Machine::boot(image, symbols).mem.take(image.len() as int) =~= image);
    }
}

/// `add` yields the sum of its operands modulo 32768, whatever they are, and
/// so a value of at most 32767.
pub proof fn law_add_wraps(b: u16, c: u16)
    ensures
        BinOp::Add.apply(b, c) == Some(((b + c) % 32768) as u16),
        BinOp::Add.apply(b, c)->0 <= 32767,
{
}

/// `mult` yields the product of its operands modulo 32768, whatever they
/// are, and so a value of at most 32767.
pub proof fn law_mult_wraps(b: u16, c: u16)
    ensures
        BinOp::Mult.apply(b, c) == Some(((b * c) % 32768) as u16),
        BinOp::Mult.apply(b, c)->0 <= 32767,
{
}

/// The complement of 0 is 32767, and no complement exceeds 32767.
pub proof fn law_not_is_15_bit(b: u16)
    ensures
        not15(0) == 32767,
        not15(b) <= 32767,
        b <= 32767 ==> not15(b) == 32767 - b,
{
}

/// `eq` and `gt` yield exactly 0 or 1: `eq` yields 1 just when the operands
/// are equal, `gt` just when the first is greater.
pub proof fn law_comparisons_are_flags(b: u16, c: u16)
    ensures
        BinOp::Eq.apply(b, c) == Some(1u16) || BinOp::Eq.apply(b, c) == Some(0u16),
        BinOp::Gt.apply(b, c) == Some(1u16) || BinOp::Gt.apply(b, c) == Some(0u16),
        BinOp::Eq.apply(b, c) == Some(1u16) <==> b == c,
        BinOp::Gt.apply(b, c) == Some(1u16) <==> b > c,
{
}

/// A three-operand instruction whose operands are valid stores the result of
/// its operation on the two values in the destination register, leaves
/// everything else as it was and moves on by four cells.
pub proof fn law_binary_stores_result(m: Machine, op: BinOp, a: u16, b: u16, c: u16, x: u16, y: u16)
    requires
        m.wf(),
        m.dispatch() == Fetch::Decoded(Instr::Binary { op, a, b, c }),
        LIMIT <= a < LIMIT + REGISTERS,
        m.value(b) == Ok::<u16, VmError>(x),
        m.value(c) == Ok::<u16, VmError>(y),
        op.apply(x, y) is Some,
    ensures
        m.step() matches Ok((next, e)) && {
            &&& e == Event::Continue
            &&& next.register(a - LIMIT) == op.apply(x, y)->0
            &&& next.ip == m.ip + 4
            &&& next.stack == m.stack
            &&& next.input == m.input
            &&& forall|i: int| 0 <= i < CELLS && i != a ==> next.mem[i] == m.mem[i]
        },
{
}

/// `not` with valid operands stores the 15-bit complement of its value in the
/// destination register.
pub proof fn law_not_stores_complement(m: Machine, a: u16, b: u16, x: u16)
    requires
        m.wf(),
        m.dispatch() == Fetch::Decoded(Instr::Not { a, b }),
        LIMIT <= a < LIMIT + REGISTERS,
        m.value(b) == Ok::<u16, VmError>(x),
    ensures
        m.step() matches Ok((next, e)) && {
            &&& e == Event::Continue
            &&& next.register(a - LIMIT) == not15(x)
            &&& next.register(a - LIMIT) <= 32767
            &&& next.ip == m.ip + 3
        },
{
}

/// The stack is last in, first out: after pushing `a`, `b` and `c`, three
/// pops yield `c`, `b` and `a` in that order and leave the stack as it was.
pub proof fn law_stack_is_lifo(m: Machine, a: u16, b: u16, c: u16)
    ensures
        ({
            let full = m.push(a).push(b).push(c);
            &&& full.stack.last() == c
            &&& full.pop().stack.last() == b
            &&& full.pop().pop().stack.last() == a
            &&& full.pop().pop().pop().stack == m.stack
        }),
{
}

/// Three pushes followed by three pops, as a program: where the cells at the
/// instruction pointer hold `push a; push b; push c; pop r0; pop r1; pop r2`
/// with literal operands, six steps leave `c`, `b` and `a` in registers 0, 1
/// and 2, the stack as it was, and the instruction pointer behind the
/// program.
pub proof fn law_push_pop_program(m: Machine, a: u16, b: u16, c: u16, console: Transcript)
    requires
        m.wf(),
        !m.waiting,
        a < LIMIT,
        b < LIMIT,
        c < LIMIT,
        m.ip + 12 <= LIMIT,
        m.mem.subrange(m.ip as int, m.ip as int + 12) == seq![
            2u16,
            a,
            2u16,
            b,
            2u16,
            c,
            3u16,
            32768u16,
            3u16,
            32769u16,
            3u16,
            32770u16,
        ],
    ensures
        ({
            let (end, _, stop) = m.run(console, 6);
            &&& stop == Ok::<Stop, VmError>(Stop::OutOfSteps)
            &&& end.register(0) == c
            &&& end.register(1) == b
            &&& end.register(2) == a
            &&& end.stack == m.stack
            &&& end.ip == m.ip + 12
        }),
{
    let ip = m.ip as int;
    let code = m.mem.subrange(ip, ip + 12);
    assert forall|k: int| 0 <= k < 12 implies m.mem[ip + k] == code[k] by {}
    let m1 = m.push(a).advance(2);
    let m2 = m1.push(b).advance(2);
    let m3 = m2.push(c).advance(2);
    let m4 = m3.pop().write(Dest::Register(0), c).advance(2);
    let m5 = m4.pop().write(Dest::Register(1), b).advance(2);
    let m6 = m5.pop().write(Dest::Register(2), a).advance(2);
    assert(m.dispatch() == Fetch::Decoded(Instr::Push { a }));
    assert(m.step() == Ok::<(Machine, Event), VmError>((m1, Event::Continue)));
    assert(m1.fetch() == Fetch::Decoded(Instr::Push { a: b }));
    assert(m1.step() == Ok::<(Machine, Event), VmError>((m2, Event::Continue)));
    assert(m2.fetch() == Fetch::Decoded(Instr::Push { a: c }));
    assert(m2.step() == Ok::<(Machine, Event), VmError>((m3, Event::Continue)));
    assert(m3.fetch() == Fetch::Decoded(Instr::Pop { a: 32768 }));
    assert(m3.step() == Ok::<(Machine, Event), VmError>((m4, Event::Continue)));
    assert(m4.fetch() == Fetch::Decoded(Instr::Pop { a: 32769 }));
    assert(m4.stack =~= m.stack.push(a).push(b));
    assert(m4.step() == Ok::<(Machine, Event), VmError>((m5, Event::Continue)));
    assert(m5.fetch() == Fetch::Decoded(Instr::Pop { a: 32770 }));
    assert(m5.stack =~= m.stack.push(a));
    assert(m5.step() == Ok::<(Machine, Event), VmError>((m6, Event::Continue)));
    assert(m6.stack =~= m.stack);
    reveal_with_fuel(Machine::run, 7);
}

/// A `push` of a valid operand puts its value on top of the stack, and a
/// `pop` into a register takes the top of the stack into that register.
pub proof fn law_push_pop_instructions(m: Machine, a: u16, x: u16)
    requires
        m.wf(),
    ensures
        m.dispatch() == Fetch::Decoded(Instr::Push { a }) && m.value(a) == Ok::<u16, VmError>(x)
            ==> m.step() == Ok::<(Machine, Event), VmError>(
            (Machine { waiting: false, ..m.push(x).advance(2) }, Event::Continue),
        ),
        m.dispatch() == Fetch::Decoded(Instr::Pop { a }) && m.stack.len() > 0 && LIMIT <= a < LIMIT
            + REGISTERS ==> (m.step() matches Ok((next, e)) && {
            &&& e == Event::Continue
            &&& next.register(a - LIMIT) == m.stack.last()
            &&& next.stack == m.stack.drop_last()
            &&& next.ip == m.ip + 2
        }),
        m.dispatch() == Fetch::Decoded(Instr::Pop { a }) && m.stack.len() == 0 ==> m.step() == Err::<
            (Machine, Event),
            VmError,
        >(VmError::StackUnderflow),
{
}

/// A `call` pushes the address of the instruction that follows it and jumps
/// to its target; a `ret` that finds the stack as the call left it resumes
/// at that instruction and leaves the stack as it was before the call.
pub proof fn law_call_then_ret(m: Machine, a: u16, target: u16, later: Machine)
    requires
        m.wf(),
        m.dispatch() == Fetch::Decoded(Instr::Call { a }),
        m.value(a) == Ok::<u16, VmError>(target),
        later.wf(),
        later.dispatch() == Fetch::Decoded(Instr::Ret),
        later.stack == m.stack.push((m.ip + 2) as u16),
    ensures
        m.step() matches Ok((after, e)) && {
            &&& e == Event::Continue
            &&& after.ip == target
            &&& after.stack == m.stack.push((m.ip + 2) as u16)
            &&& after.mem == m.mem
        },
        later.step() matches Ok((back, e)) && {
            &&& e == Event::Continue
            &&& back.ip == m.ip + 2
            &&& back.stack == m.stack
        },
{
}

/// `ret` on an empty stack halts the machine where it stands; it is no fault.
pub proof fn law_ret_on_empty_stack_halts(m: Machine)
    requires
        m.dispatch() == Fetch::Decoded(Instr::Ret),
        m.stack.len() == 0,
    ensures
        m.step() == Ok::<(Machine, Event), VmError>((m, Event::Halted(HaltReason::Return))),
{
}

/// An instruction pointer beyond the address space halts the machine where
/// it stands; it is no fault.
pub proof fn law_out_of_range_halts(m: Machine)
    requires
        m.wf(),
        m.ip >= m.mem.len(),
    ensures
        m.step() == Ok::<(Machine, Event), VmError>((m, Event::Halted(HaltReason::OutOfRange))),
{
}

/// A halt is final: the step that halts leaves the machine as it was, so
/// every later step halts for the same reason.
pub proof fn law_halt_is_stable(m: Machine, reason: HaltReason)
    requires
        m.step() matches Ok((_, e)) && e == Event::Halted(reason),
    ensures
        m.step() == Ok::<(Machine, Event), VmError>((m, Event::Halted(reason))),
{
}

/// A step that does not jump moves the instruction pointer past the
/// instruction and its operands.
pub proof fn law_ip_advances_by_width(m: Machine, instr: Instr)
    requires
        m.dispatch() == Fetch::Decoded(instr),
        m.step() is Ok,
        !(instr is Halt || instr is Jmp || instr is Jt || instr is Jf || instr is Call
            || instr is Ret),
        m.step()->Ok_0.1 != Event::NeedInput,
    ensures
        m.step()->Ok_0.0.ip == m.ip + instr.width(),
{
}

/// A step keeps the address space at its size.
pub proof fn law_step_keeps_size(m: Machine)
    requires
        m.wf(),
    ensures
        m.step() matches Ok((next, _)) ==> next.wf(),
{
}

/// A line that begins with the reserved prefix never reaches the input
/// queue; any other line is queued whole, followed by a line terminator.
pub proof fn law_directives_are_not_input(m: Machine, line: Seq<char>)
    ensures
        is_directive(line) ==> deliver(m, line).input == m.input,
        !is_directive(line) ==> deliver(m, line).input == m.input + line.push('\n'),
{
}

/// However many lines that begin with the reserved prefix the line source
/// hands over, and whatever they say, none of their characters reaches the
/// input queue: the queue, the stack and the instruction pointer stay as
/// they were, a machine that waits goes on waiting, and the address space
/// keeps its size.
pub proof fn law_directives_leave_the_queue(m: Machine, directives: Seq<Seq<char>>)
    requires
        forall|k: int| 0 <= k < directives.len() ==> is_directive(#[trigger] directives[k]),
    ensures
        deliver_all(m, directives).input == m.input,
        deliver_all(m, directives).stack == m.stack,
        deliver_all(m, directives).ip == m.ip,
        deliver_all(m, directives).symbols == m.symbols,
        deliver_all(m, directives).waiting == m.waiting,
        m.wf() ==> deliver_all(m, directives).wf(),
    decreases directives.len(),
{
    if directives.len() > 0 {
        let earlier = directives.drop_last();
        assert forall|k: int| 0 <= k < earlier.len() implies is_directive(
            #[trigger] earlier[k],
        ) by {
            assert(earlier[k] == directives[k]);
        }
        law_directives_leave_the_queue(m, earlier);
        assert(is_directive(directives.last()));
    }
}

/// A waiting `in` is completed, not restarted. Where the machine waits with
/// the queue empty, the line source then hands over the lines of
/// `directives`, each beginning with the reserved prefix, and then `line`,
/// which does not, the queue holds exactly `line` and its terminator, and the
/// next step completes the `in`, whatever the directives have written to its
/// opcode cell. The destination is the word that stands behind the opcode
/// cell after the directives: if it names a register, that register receives
/// the code of the first character of `line`, or 10 if `line` is empty, the
/// rest of `line` and its terminator stay queued and execution goes on
/// behind the `in`; if it names none, the step faults and changes nothing.
pub proof fn law_waiting_in_is_completed(
    m: Machine,
    directives: Seq<Seq<char>>,
    line: Seq<char>,
)
    requires
        m.wf(),
        m.waiting,
        m.input.len() == 0,
        forall|k: int| 0 <= k < directives.len() ==> is_directive(#[trigger] directives[k]),
        !is_directive(line),
    ensures
        ({
            let ready = deliver(deliver_all(m, directives), line);
            let d = ready.mem[m.ip as int + 1];
            &&& ready.wf()
            &&& ready.waiting
            &&& ready.input == line.push('\n')
            &&& ready.ip == m.ip
            &&& ready.stack == m.stack
            &&& LIMIT <= d < LIMIT + REGISTERS ==> (ready.step() matches Ok((next, e)) && {
                &&& e == Event::Continue
                &&& next.register(d - LIMIT) == char_code(line.push('\n')[0])
                &&& line.len() > 0 ==> next.register(d - LIMIT) == char_code(line[0])
                &&& line.len() == 0 ==> next.register(d - LIMIT) == 10
                &&& next.input == line.push('\n').skip(1)
                &&& next.ip == m.ip + 2
                &&& !next.waiting
            })
            &&& !(LIMIT <= d < LIMIT + REGISTERS) ==> ready.step() == Err::<
                (Machine, Event),
                VmError,
            >(VmError::InvalidAddress(d))
        }),
{
    law_directives_leave_the_queue(m, directives);
    let waiting = deliver_all(m, directives);
    let ready = deliver(waiting, line);
    assert(ready.input =~= line.push('\n'));
    let d = ready.mem[m.ip as int + 1];
    assert(ready.dispatch() == Fetch::Decoded(Instr::In { a: d }));
    if LIMIT <= d < LIMIT + REGISTERS {
        law_in_reads_the_queue(ready, d);
    }
}

/// While the machine waits, directives alone do not make it move: with the
/// queue still empty, the next step waits again and changes nothing.
pub proof fn law_waiting_goes_on_without_input(m: Machine, directives: Seq<Seq<char>>)
    requires
        m.wf(),
        m.waiting,
        m.input.len() == 0,
        forall|k: int| 0 <= k < directives.len() ==> is_directive(#[trigger] directives[k]),
    ensures
        ({
            let still = deliver_all(m, directives);
            still.step() == Ok::<(Machine, Event), VmError>((still, Event::NeedInput))
        }),
{
    law_directives_leave_the_queue(m, directives);
    let still = deliver_all(m, directives);
    assert(Machine { waiting: true, ..still } =~= still);
}

/// A step takes at most one character from the input queue, the first one,
/// and only an `in` does: every other step leaves the queue as it was.
pub proof fn law_step_consumes_in_order(m: Machine)
    requires
        m.wf(),
    ensures
        m.step() matches Ok((next, _)) ==> {
            ||| next.input == m.input
            ||| (m.dispatch() matches Fetch::Decoded(Instr::In { a }) && {
                &&& m.input.len() > 0
                &&& LIMIT <= a < LIMIT + REGISTERS
                &&& next.input == m.input.skip(1)
                &&& next.register(a - LIMIT) == char_code(m.input[0])
            })
        },
{
    match m.dispatch() {
        Fetch::Decoded(Instr::In { a }) => {
            if m.input.len() > 0 && LIMIT <= a < LIMIT + REGISTERS {
                law_in_reads_the_queue(m, a);
            }
        },
        _ => {},
    }
}

/// A run takes the characters of the input queue in order from the front
/// and adds none: what is left of the queue after the run is an end part of
/// the queue before it.
pub proof fn law_run_consumes_in_order(m: Machine, console: Transcript, n: nat)
    requires
        m.wf(),
    ensures
        ({
            let end = m.run(console, n).0;
            &&& end.wf()
            &&& end.input.len() <= m.input.len()
            &&& end.input == m.input.skip(m.input.len() - end.input.len())
        }),
    decreases n,
{
    assert(m.input.skip(0) =~= m.input);
    if n > 0 {
        let shown = console.traced(m.trace());
        law_step_consumes_in_order(m);
        match m.step() {
            Ok((next, Event::Continue)) => {
                law_run_consumes_in_order(next, shown, (n - 1) as nat);
                let end = next.run(shown, (n - 1) as nat).0;
                assert(end.input =~= m.input.skip(m.input.len() - end.input.len()));
            },
            Ok((next, Event::Output(b))) => {
                law_run_consumes_in_order(next, shown.printed(b), (n - 1) as nat);
                let end = next.run(shown.printed(b), (n - 1) as nat).0;
                assert(end.input =~= m.input.skip(m.input.len() - end.input.len()));
            },
            _ => {},
        }
    }
}

/// A run that ends waiting for input leaves the machine waiting, with the
/// input queue empty: the next step completes the `in` that was dispatched.
pub proof fn law_run_waits_at_in(m: Machine, console: Transcript, n: nat)
    requires
        m.run(console, n).2 == Ok::<Stop, VmError>(Stop::NeedInput),
    ensures
        m.run(console, n).0.waiting,
        m.run(console, n).0.input.len() == 0,
        m.run(console, n).0.dispatch() matches Fetch::Decoded(instr) && instr is In,
    decreases n,
{
    if n > 0 {
        let shown = console.traced(m.trace());
        match m.step() {
            Ok((next, Event::Continue)) => {
                law_run_waits_at_in(next, shown, (n - 1) as nat);
            },
            Ok((next, Event::Output(b))) => {
                law_run_waits_at_in(next, shown.printed(b), (n - 1) as nat);
            },
            _ => {},
        }
    }
}

/// `in` takes the character codes of the input queue in order, and nothing
/// else: with a valid destination it stores the code of the first queued
/// character and removes that character; on an empty queue the machine does
/// not move and waits from then on.
pub proof fn law_in_reads_the_queue(m: Machine, a: u16)
    requires
        m.wf(),
        m.dispatch() == Fetch::Decoded(Instr::In { a }),
        LIMIT <= a < LIMIT + REGISTERS,
    ensures
        m.input.len() == 0 ==> m.step() == Ok::<(Machine, Event), VmError>(
            (Machine { waiting: true, ..m }, Event::NeedInput),
        ),
        m.input.len() > 0 ==> (m.step() matches Ok((next, e)) && {
            &&& e == Event::Continue
            &&& next.register(a - LIMIT) == char_code(m.input[0])
            &&& next.input == m.input.skip(1)
            &&& next.ip == m.ip + 2
            &&& !next.waiting
        }),
{
}

/// `wmem` never writes a register: an address operand whose value is 32768
/// or more is rejected as an invalid address and the machine is unchanged;
/// below that, exactly the addressed cell of program memory is written.
pub proof fn law_wmem_rejects_registers(m: Machine, a: u16, b: u16, addr: u16, x: u16)
    requires
        m.wf(),
        m.dispatch() == Fetch::Decoded(Instr::Wmem { a, b }),
        m.value(a) == Ok::<u16, VmError>(addr),
        m.value(b) == Ok::<u16, VmError>(x),
    ensures
        addr >= LIMIT ==> m.step() == Err::<(Machine, Event), VmError>(
            VmError::InvalidAddress(addr),
        ),
        addr < LIMIT ==> (m.step() matches Ok((next, e)) && {
            &&& e == Event::Continue
            &&& next.mem == m.mem.update(addr as int, x)
            &&& next.registers() == m.registers()
            &&& next.ip == m.ip + 3
        }),
{
}

/// A register destination is taken as it stands: a word in `32768..=32775`
/// names register `word - 32768` whatever that register holds, and any other
/// word is rejected.
pub proof fn law_destination_is_not_resolved(word: u16)
    ensures
        LIMIT <= word < LIMIT + REGISTERS ==> register_destination(word) == Ok::<Dest, VmError>(
            Dest::Register((word - LIMIT) as u16),
        ),
        !(LIMIT <= word < LIMIT + REGISTERS) ==> register_destination(word) == Err::<
            Dest,
            VmError,
        >(VmError::InvalidAddress(word)),
{
}

/// A run can be taken in parts: running `n + k` steps is running `n` steps
/// and, unless that run ended before its steps were used up, `k` more from
/// where it stopped.
pub proof fn law_run_resumes(m: Machine, console: Transcript, n: nat, k: nat)
    ensures
        ({
            let (stopped, shown, end) = m.run(console, n);
            m.run(console, n + k) == if end == Ok::<Stop, VmError>(Stop::OutOfSteps) {
                stopped.run(shown, k)
            } else {
                (stopped, shown, end)
            }
        }),
    decreases n,
{
    if n > 0 {
        let shown = console.traced(m.trace());
        match m.step() {
            Ok((next, Event::Continue)) => {
                law_run_resumes(next, shown, (n - 1) as nat, k);
            },
            Ok((next, Event::Output(b))) => {
                law_run_resumes(next, shown.printed(b), (n - 1) as nat, k);
            },
            _ => {},
        }
    }
}

/// A run never loses what was emitted before it: the output and the trace
/// it leaves begin with those it was given.
pub proof fn law_run_only_appends(m: Machine, console: Transcript, n: nat)
    ensures
        console.output.is_prefix_of(m.run(console, n).1.output),
        console.trace.is_prefix_of(m.run(console, n).1.trace),
    decreases n,
{
    if n > 0 {
        let shown = console.traced(m.trace());
        match m.step() {
            Ok((next, Event::Continue)) => {
                law_run_only_appends(next, shown, (n - 1) as nat);
            },
            Ok((next, Event::Output(b))) => {
                law_run_only_appends(next, shown.printed(b), (n - 1) as nat);
            },
            _ => {},
        }
    }
}

/// The table of labels only annotates: a step neither reads it for its
/// result nor changes it, nor does it change whether tracing is on.
pub proof fn law_symbols_only_annotate(m: Machine, symbols: Map<u16, String>)
    ensures
        ({
            let other = Machine { symbols, ..m };
            match (m.step(), other.step()) {
                (Ok((next, e1)), Ok((there, e2))) => {
                    &&& e1 == e2
                    &&& there == Machine { symbols, ..next }
                    &&& next.symbols == m.symbols
                    &&& next.debug == m.debug
                },
                (Err(e1), Err(e2)) => e1 == e2,
                _ => false,
            }
        }),
{
    let other = Machine { symbols, ..m };
    assert(other.fetch() == m.fetch());
    match (m.step(), other.step()) {
        (Ok((next, _)), Ok((there, _))) => {
            assert(there =~= Machine { symbols, ..next });
        },
        _ => {},
    }
}

/// Tracing observes only: a machine with tracing on takes the same step as
/// the same machine with tracing off.
pub proof fn law_tracing_only_observes(m: Machine)
    ensures
        ({
            let traced = Machine { debug: true, ..m };
            let silent = Machine { debug: false, ..m };
            match (traced.step(), silent.step()) {
                (Ok((t, e1)), Ok((s, e2))) => e1 == e2 && s == Machine { debug: false, ..t },
                (Err(e1), Err(e2)) => e1 == e2,
                _ => false,
            }
        }),
{
    let traced = Machine { debug: true, ..m };
    let silent = Machine { debug: false, ..m };
    assert(traced.fetch() == silent.fetch());
    match (traced.step(), silent.step()) {
        (Ok((t, _)), Ok((s, _))) => {
            assert(s =~= Machine { debug: false, ..t });
        },
        _ => {},
    }
}

} // verus!
