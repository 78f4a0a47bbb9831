//! The input channel of the machine: lines from the line source are either
//! queued for the `in` instruction or, when they begin with the reserved
//! prefix, carried out as directives.

use vstd::prelude::*;
use crate::directive::{is_directive, parse, parse_directive, Directive, DirectiveError, PREFIX};
use crate::machine::{Dest, Machine};
use crate::text::chars_of;
use crate::vm::VM;

verus! {

/// The machine `m` after the line source handed it `line`: a line that
/// begins with the prefix is carried out if it is a well-formed directive and
/// dropped if it is not, and the input queue stays as it was; any other
/// line is queued with its terminator.
pub open spec fn deliver(m: Machine, line: Seq<char>) -> Machine {
    if is_directive(line) {
        match parse(line) {
            Ok(d) => d.apply(m),
            Err(_) => m,
        }
    } else {
        m.enqueue(line)
    }
}

/// The machine `m` after the line source handed it `lines` one after
/// another, first line first.
pub open spec fn deliver_all(m: Machine, lines: Seq<Seq<char>>) -> Machine
    decreases lines.len(),
{
    if lines.len() == 0 {
        m
    } else {
        deliver(deliver_all(m, lines.drop_last()), lines.last())
    }
}

/// What handing `line` to the machine reports: for a line that begins with
/// the prefix the directive or the reason it is none, else nothing.
pub open spec fn report(line: Seq<char>) -> Option<Result<Directive, DirectiveError>> {
    if is_directive(line) {
        Some(parse(line))
    } else {
        None
    }
}

impl VM {
    /// Appends the characters of `input` and a line terminator to the input
    /// queue.
    pub fn add_to_buffer(&mut self, input: &str)
        ensures
            final(self)@ == old(self)@.enqueue(input@),
    {
        let chars = chars_of(input);
        let mut i: usize = 0;
        while i < chars.len()
            invariant
                i <= chars.len(),
                chars@ == input@,
                self.input_buffer@ == old(self).input_buffer@ + input@.take(i as int),
                self.mem == old(self).mem,
                self.stack == old(self).stack,
                self.ip == old(self).ip,
                self.debug == old(self).debug,
                self.symbols == old(self).symbols,
                self.waiting == old(self).waiting,
            decreases chars.len() - i,
        {
            self.input_buffer.push_back(chars[i]);
            i += 1;
        }
        self.input_buffer.push_back('\n');
    }

    /// Carries out a directive.
    pub fn apply_directive(&mut self, d: Directive)
        requires
            old(self).wf(),
            d.wf(),
        ensures
            final(self).wf(),
            final(self)@ == d.apply(old(self)@),
    {
        match d {
            Directive::WriteMemory { addr, value } => {
                self.mem[addr as usize] = value;
            },
            Directive::WriteRegister { reg, value } => {
                self.store(Dest::Register(reg), value);
            },
            Directive::ToggleDebug => {
                self.debug = !self.debug;
            },
        }
    }

    /// Reads `line`, which begins with the reserved prefix, as a directive
    /// and carries it out. A line that is no well-formed directive changes
    /// nothing; the reason is returned.
    pub fn handle_debug(&mut self, line: &str) -> (r: Result<Directive, DirectiveError>)
        requires
            old(self).wf(),
            is_directive(line@),
        ensures
            final(self).wf(),
            r == parse(line@),
            final(self)@ == deliver(old(self)@, line@),
    {
        let chars = chars_of(line);
        let r = parse_directive(&chars);
        match r {
            Ok(d) => {
                self.apply_directive(d);
            },
            Err(_) => {},
        }
        r
    }

    /// Takes one line from the line source: a line that begins with the
    /// reserved prefix is handled as a directive and never reaches the input
    /// queue; any other line is queued with its terminator.
    pub fn feed_line(&mut self, line: &str) -> (r: Option<Result<Directive, DirectiveError>>)
        requires
            old(self).wf(),
        ensures
            final(self).wf(),
            r == report(line@),
            final(self)@ == deliver(old(self)@, line@),
    {
        let chars = chars_of(line);
        if chars.len() > 0 && chars[0] == PREFIX {
            Some(self.handle_debug(line))
        } else {
            self.add_to_buffer(line);
            None
        }
    }
}

} // verus!
