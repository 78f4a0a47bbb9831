//! Debug directives: input lines that begin with the reserved prefix and act
//! on the machine instead of being delivered to the program.
//!
//! After the prefix a directive is a name and its arguments, separated by
//! single spaces:
//!
//! * `wmem <address> <value>`, both in base 16, writes a cell of the address
//!   space;
//! * `wreg <register> <value>`, both in base 10, writes a register;
//! * `debug` switches tracing.
//!
//! Fields after those a directive needs are ignored.

use vstd::prelude::*;
use crate::machine::{Dest, Machine};
use crate::text::{chars_of, parse_u16, read_u16, split, split_fields};
use crate::word::{CELLS, REGISTERS};

verus! {

/// The character that marks an input line as a directive.
pub const PREFIX: char = '.';

/// The field separator of a directive.
pub const SEPARATOR: char = ' ';

/// The directives that take arguments or can fail.
#[derive(Clone, Copy, Debug, PartialEq, Eq, Structural)]
pub enum Command {
    Wmem,
    Wreg,
}

/// A well-formed directive.
#[derive(Clone, Copy, Debug, PartialEq, Eq, Structural)]
pub enum Directive {
    /// Write `value` to cell `addr` of the address space.
    WriteMemory { addr: u16, value: u16 },
    /// Write `value` to register `reg`.
    WriteRegister { reg: u16, value: u16 },
    /// Switch tracing on if it is off, and off if it is on.
    ToggleDebug,
}

/// Why a line that begins with the prefix is no directive. None of these
/// stops the machine.
#[derive(Clone, Copy, Debug, PartialEq, Eq, Structural)]
pub enum DirectiveError {
    /// The command has fewer than two arguments.
    MissingArguments(Command),
    /// An argument of the command is not a number of its base that fits in
    /// 16 bits.
    BadArguments(Command),
    /// The register number is above 7.
    InvalidRegister(u16),
    /// The address is beyond the address space.
    InvalidAddress(u16),
    /// The name is that of no directive.
    Unknown,
}

impl Directive {
    /// The address or the register number is in range.
    pub open spec fn wf(self) -> bool {
        match self {
            Directive::WriteMemory { addr, .. } => addr < CELLS,
            Directive::WriteRegister { reg, .. } => reg < REGISTERS,
            Directive::ToggleDebug => true,
        }
    }

    /// The machine `m` after the directive.
    pub open spec fn apply(self, m: Machine) -> Machine {
        match self {
            Directive::WriteMemory { addr, value } => Machine {
                mem: m.mem.update(addr as int, value),
                ..m
            },
            Directive::WriteRegister { reg, value } => m.write(Dest::Register(reg), value),
            Directive::ToggleDebug => Machine { debug: !m.debug, ..m },
        }
    }
}

/// The line begins with the reserved prefix.
pub open spec fn is_directive(line: Seq<char>) -> bool {
    line.len() > 0 && line[0] == PREFIX
}

/// The directive that the arguments `x` and `y` of `wmem` denote.
pub open spec fn wmem(x: Seq<char>, y: Seq<char>) -> Result<Directive, DirectiveError> {
    match (parse_u16(x, 16), parse_u16(y, 16)) {
        (Some(addr), Some(value)) => if addr < CELLS {
            Ok(Directive::WriteMemory { addr, value })
        } else {
            Err(DirectiveError::InvalidAddress(addr))
        },
        _ => Err(DirectiveError::BadArguments(Command::Wmem)),
    }
}

/// The directive that the arguments `x` and `y` of `wreg` denote.
pub open spec fn wreg(x: Seq<char>, y: Seq<char>) -> Result<Directive, DirectiveError> {
    match (parse_u16(x, 10), parse_u16(y, 10)) {
        (Some(reg), Some(value)) => if reg < REGISTERS {
            Ok(Directive::WriteRegister { reg, value })
        } else {
            Err(DirectiveError::InvalidRegister(reg))
        },
        _ => Err(DirectiveError::BadArguments(Command::Wreg)),
    }
}

/// The directive that a line beginning with the prefix denotes, or why it
/// denotes none.
pub open spec fn parse(line: Seq<char>) -> Result<Directive, DirectiveError> {
    let fields = split(line.skip(1), SEPARATOR);
    if fields[0] == "wmem"@ {
        if fields.len() < 3 {
            Err(DirectiveError::MissingArguments(Command::Wmem))
        } else {
            wmem(fields[1], fields[2])
        }
    } else if fields[0] == "wreg"@ {
        if fields.len() < 3 {
            Err(DirectiveError::MissingArguments(Command::Wreg))
        } else {
            wreg(fields[1], fields[2])
        }
    } else if fields[0] == "debug"@ {
        Ok(Directive::ToggleDebug)
    } else {
        Err(DirectiveError::Unknown)
    }
}

/// Whether `field` holds exactly the characters of `word`.
pub fn same_text(field: &Vec<char>, word: &str) -> (r: bool)
    ensures
        r == (field@ == word@),
{
    let w = chars_of(word);
    if w.len() != field.len() {
        return false;
    }
    let mut i: usize = 0;
    while i < w.len()
        invariant
            i <= w.len(),
            w@ == word@,
            w.len() == field.len(),
            forall|k: int| 0 <= k < i ==> w@[k] == field@[k],
        decreases w.len() - i,
    {
        if w[i] != field[i] {
            return false;
        }
        i += 1;
    }
    assert(field@ =~= w@);
    true
}

/// Reads a line that begins with the prefix as a directive.
pub fn parse_directive(line: &Vec<char>) -> (r: Result<Directive, DirectiveError>)
    requires
        is_directive(line@),
    ensures
        r == parse(line@),
        r matches Ok(d) ==> d.wf(),
{
    let fields = split_fields(line, 1, SEPARATOR);
    if same_text(&fields[0], "wmem") {
        if fields.len() < 3 {
            return Err(DirectiveError::MissingArguments(Command::Wmem));
        }
        match (read_u16(&fields[1], 16), read_u16(&fields[2], 16)) {
            (Some(addr), Some(value)) => if (addr as usize) < CELLS {
                Ok(Directive::WriteMemory { addr, value })
            } else {
                Err(DirectiveError::InvalidAddress(addr))
            },
            _ => Err(DirectiveError::BadArguments(Command::Wmem)),
        }
    } else if same_text(&fields[0], "wreg") {
        if fields.len() < 3 {
            return Err(DirectiveError::MissingArguments(Command::Wreg));
        }
        match (read_u16(&fields[1], 10), read_u16(&fields[2], 10)) {
            (Some(reg), Some(value)) => if reg < REGISTERS {
                Ok(Directive::WriteRegister { reg, value })
            } else {
                Err(DirectiveError::InvalidRegister(reg))
            },
            _ => Err(DirectiveError::BadArguments(Command::Wreg)),
        }
    } else if same_text(&fields[0], "debug") {
        Ok(Directive::ToggleDebug)
    } else {
        Err(DirectiveError::Unknown)
    }
}

} // verus!
