//! The instruction set: opcodes, operand counts and decoding.

use vstd::prelude::*;
use crate::word::BinOp;

verus! {

/// A decoded instruction with its operand words as they stand in memory.
///
/// Operand `a` is the first word after the opcode, `b` the second, `c` the
/// third. Whether an operand is read as a value or names a destination is a
/// matter of the instruction, not of the encoding.
#[derive(Clone, Copy, Debug, PartialEq, Eq, Structural)]
pub enum Instr {
    Halt,
    SetReg { a: u16, b: u16 },
    Push { a: u16 },
    Pop { a: u16 },
    Binary { op: BinOp, a: u16, b: u16, c: u16 },
    Jmp { a: u16 },
    Jt { a: u16, b: u16 },
    Jf { a: u16, b: u16 },
    Not { a: u16, b: u16 },
    Rmem { a: u16, b: u16 },
    Wmem { a: u16, b: u16 },
    Call { a: u16 },
    Ret,
    Out { a: u16 },
    In { a: u16 },
    Noop,
}

/// The number of operand words that follow the opcode `op`, for `op <= 21`.
pub open spec fn arity(op: u16) -> nat {
    if op == 0 || op == 18 || op == 21 {
        0
    } else if op == 2 || op == 3 || op == 6 || op == 17 || op == 19 || op == 20 {
        1
    } else if op == 1 || op == 7 || op == 8 || op == 14 || op == 15 || op == 16 {
        2
    } else {
        3
    }
}

/// The binary operation that the opcode `op` selects, for `4 <= op <= 13`
/// other than the jumps.
pub open spec fn binop_of(op: u16) -> BinOp {
    if op == 4 {
        BinOp::Eq
    } else if op == 5 {
        BinOp::Gt
    } else if op == 9 {
        BinOp::Add
    } else if op == 10 {
        BinOp::Mult
    } else if op == 11 {
        BinOp::Mod
    } else if op == 12 {
        BinOp::And
    } else {
        BinOp::Or
    }
}

/// The instruction that opcode `op` forms with the three words after it;
/// words beyond the opcode's arity are ignored. `None` if `op` is no opcode.
pub open spec fn decode(op: u16, a: u16, b: u16, c: u16) -> Option<Instr> {
    if op == 0 {
        Some(Instr::Halt)
    } else if op == 1 {
        Some(Instr::SetReg { a, b })
    } else if op == 2 {
        Some(Instr::Push { a })
    } else if op == 3 {
        Some(Instr::Pop { a })
    } else if op == 4 || op == 5 || (9 <= op <= 13) {
        Some(Instr::Binary { op: binop_of(op), a, b, c })
    } else if op == 6 {
        Some(Instr::Jmp { a })
    } else if op == 7 {
        Some(Instr::Jt { a, b })
    } else if op == 8 {
        Some(Instr::Jf { a, b })
    } else if op == 14 {
        Some(Instr::Not { a, b })
    } else if op == 15 {
        Some(Instr::Rmem { a, b })
    } else if op == 16 {
        Some(Instr::Wmem { a, b })
    } else if op == 17 {
        Some(Instr::Call { a })
    } else if op == 18 {
        Some(Instr::Ret)
    } else if op == 19 {
        Some(Instr::Out { a })
    } else if op == 20 {
        Some(Instr::In { a })
    } else if op == 21 {
        Some(Instr::Noop)
    } else {
        None
    }
}

impl Instr {
    /// The opcode word of the instruction.
    pub open spec fn opcode(self) -> u16 {
        match self {
            Instr::Halt => 0,
            Instr::SetReg { .. } => 1,
            Instr::Push { .. } => 2,
            Instr::Pop { .. } => 3,
            Instr::Binary { op, .. } => match op {
                BinOp::Eq => 4,
                BinOp::Gt => 5,
                BinOp::Add => 9,
                BinOp::Mult => 10,
                BinOp::Mod => 11,
                BinOp::And => 12,
                BinOp::Or => 13,
            },
            Instr::Jmp { .. } => 6,
            Instr::Jt { .. } => 7,
            Instr::Jf { .. } => 8,
            Instr::Not { .. } => 14,
            Instr::Rmem { .. } => 15,
            Instr::Wmem { .. } => 16,
            Instr::Call { .. } => 17,
            Instr::Ret => 18,
            Instr::Out { .. } => 19,
            Instr::In { .. } => 20,
            Instr::Noop => 21,
        }
    }

    /// The operand words of the instruction, in memory order.
    pub open spec fn operands(self) -> Seq<u16> {
        match self {
            Instr::Halt | Instr::Ret | Instr::Noop => seq![],
            Instr::Push { a } | Instr::Pop { a } | Instr::Jmp { a } | Instr::Call { a }
            | Instr::Out { a } | Instr::In { a } => seq![a],
            Instr::SetReg { a, b } | Instr::Jt { a, b } | Instr::Jf { a, b } | Instr::Not { a, b }
            | Instr::Rmem { a, b } | Instr::Wmem { a, b } => seq![a, b],
            Instr::Binary { a, b, c, .. } => seq![a, b, c],
        }
    }

    /// The operand words that the instruction reads as values, in memory
    /// order: every operand but a register destination.
    pub open spec fn sources(self) -> Seq<u16> {
        match self {
            Instr::Halt | Instr::Ret | Instr::Noop | Instr::Pop { .. } | Instr::In { .. } => seq![],
            Instr::Push { a } | Instr::Jmp { a } | Instr::Call { a } | Instr::Out { a } => seq![a],
            Instr::SetReg { b, .. } | Instr::Not { b, .. } | Instr::Rmem { b, .. } => seq![b],
            Instr::Jt { a, b } | Instr::Jf { a, b } | Instr::Wmem { a, b } => seq![a, b],
            Instr::Binary { b, c, .. } => seq![b, c],
        }
    }

    /// The number of cells the instruction occupies: the opcode and its operands.
    pub open spec fn width(self) -> nat {
        1 + self.operands().len()
    }

    /// The words of the instruction as they stand in memory.
    pub open spec fn encoding(self) -> Seq<u16> {
        seq![self.opcode()] + self.operands()
    }

    /// The mnemonic of the instruction.
    pub open spec fn name(self) -> Seq<char> {
        match self {
            Instr::Halt => "halt"@,
            Instr::SetReg { .. } => "set"@,
            Instr::Push { .. } => "push"@,
            Instr::Pop { .. } => "pop"@,
            Instr::Binary { op, .. } => match op {
                BinOp::Eq => "eq"@,
                BinOp::Gt => "gt"@,
                BinOp::Add => "add"@,
                BinOp::Mult => "mult"@,
                BinOp::Mod => "mod"@,
                BinOp::And => "and"@,
                BinOp::Or => "or"@,
            },
            Instr::Jmp { .. } => "jmp"@,
            Instr::Jt { .. } => "jt"@,
            Instr::Jf { .. } => "jf"@,
            Instr::Not { .. } => "not"@,
            Instr::Rmem { .. } => "rmem"@,
            Instr::Wmem { .. } => "wmem"@,
            Instr::Call { .. } => "call"@,
            Instr::Ret => "ret"@,
            Instr::Out { .. } => "out"@,
            Instr::In { .. } => "in"@,
            Instr::Noop => "noop"@,
        }
    }

    /// Returns the mnemonic of the instruction.
    pub fn mnemonic(&self) -> (r: &'static str)
        ensures
            r@ == self.name(),
    {
        match self {
            Instr::Halt => "halt",
            Instr::SetReg { .. } => "set",
            Instr::Push { .. } => "push",
            Instr::Pop { .. } => "pop",
            Instr::Binary { op, .. } => match op {
                BinOp::Eq => "eq",
                BinOp::Gt => "gt",
                BinOp::Add => "add",
                BinOp::Mult => "mult",
                BinOp::Mod => "mod",
                BinOp::And => "and",
                BinOp::Or => "or",
            },
            Instr::Jmp { .. } => "jmp",
            Instr::Jt { .. } => "jt",
            Instr::Jf { .. } => "jf",
            Instr::Not { .. } => "not",
            Instr::Rmem { .. } => "rmem",
            Instr::Wmem { .. } => "wmem",
            Instr::Call { .. } => "call",
            Instr::Ret => "ret",
            Instr::Out { .. } => "out",
            Instr::In { .. } => "in",
            Instr::Noop => "noop",
        }
    }

    /// Returns the operand words that the instruction reads as values, in
    /// memory order.
    pub fn source_words(&self) -> (r: Vec<u16>)
        ensures
            r@ == self.sources(),
    {
        let r = match self {
            Instr::Halt | Instr::Ret | Instr::Noop | Instr::Pop { .. } | Instr::In { .. } => vec![],
            Instr::Push { a } | Instr::Jmp { a } | Instr::Call { a } | Instr::Out { a } => vec![*a],
            Instr::SetReg { b, .. } | Instr::Not { b, .. } | Instr::Rmem { b, .. } => vec![*b],
            Instr::Jt { a, b } | Instr::Jf { a, b } | Instr::Wmem { a, b } => vec![*a, *b],
            Instr::Binary { b, c, .. } => vec![*b, *c],
        };
        r
    }

    /// Returns the number of cells the instruction occupies.
    pub fn size(&self) -> (r: usize)
        ensures
            r == self.width(),
            1 <= r <= 4,
    {
        match self {
            Instr::Halt | Instr::Ret | Instr::Noop => 1,
            Instr::Push { .. } | Instr::Pop { .. } | Instr::Jmp { .. } | Instr::Call { .. }
            | Instr::Out { .. } | Instr::In { .. } => 2,
            Instr::SetReg { .. } | Instr::Jt { .. } | Instr::Jf { .. } | Instr::Not { .. }
            | Instr::Rmem { .. } | Instr::Wmem { .. } => 3,
            Instr::Binary { .. } => 4,
        }
    }
}

/// Returns the number of operand words of opcode `op`, or `None` if `op` is
/// no opcode.
pub fn operand_count(op: u16) -> (r: Option<usize>)
    ensures
        op <= 21 ==> r == Some(arity(op) as usize),
        op > 21 ==> r is None,
{
    match op {
        0 | 18 | 21 => Some(0),
        2 | 3 | 6 | 17 | 19 | 20 => Some(1),
        1 | 7 | 8 | 14 | 15 | 16 => Some(2),
        4 | 5 | 9 | 10 | 11 | 12 | 13 => Some(3),
        _ => None,
    }
}

/// Forms the instruction that opcode `op` makes with the words `a`, `b` and
/// `c`; words beyond the opcode's arity are ignored.
pub fn assemble(op: u16, a: u16, b: u16, c: u16) -> (r: Option<Instr>)
    ensures
        r == decode(op, a, b, c),
        r is Some <==> op <= 21,
{
    match op {
        0 => Some(Instr::Halt),
        1 => Some(Instr::SetReg { a, b }),
        2 => Some(Instr::Push { a }),
        3 => Some(Instr::Pop { a }),
        4 => Some(Instr::Binary { op: BinOp::Eq, a, b, c }),
        5 => Some(Instr::Binary { op: BinOp::Gt, a, b, c }),
        6 => Some(Instr::Jmp { a }),
        7 => Some(Instr::Jt { a, b }),
        8 => Some(Instr::Jf { a, b }),
        9 => Some(Instr::Binary { op: BinOp::Add, a, b, c }),
        10 => Some(Instr::Binary { op: BinOp::Mult, a, b, c }),
        11 => Some(Instr::Binary { op: BinOp::Mod, a, b, c }),
        12 => Some(Instr::Binary { op: BinOp::And, a, b, c }),
        13 => Some(Instr::Binary { op: BinOp::Or, a, b, c }),
        14 => Some(Instr::Not { a, b }),
        15 => Some(Instr::Rmem { a, b }),
        16 => Some(Instr::Wmem { a, b }),
        17 => Some(Instr::Call { a }),
        18 => Some(Instr::Ret),
        19 => Some(Instr::Out { a }),
        20 => Some(Instr::In { a }),
        21 => Some(Instr::Noop),
        _ => None,
    }
}

/// Decoding an instruction's own opcode and operands gives the instruction
/// back, and its width is one more than the arity of its opcode.
pub proof fn lemma_decode_encoding(i: Instr)
    ensures
        i.opcode() <= 21,
        i.width() == 1 + arity(i.opcode()),
        i.operands().len() == 0 ==> forall|a: u16, b: u16, c: u16|
            decode(i.opcode(), a, b, c) == Some(i),
        i.operands().len() == 1 ==> forall|b: u16, c: u16|
            decode(i.opcode(), i.operands()[0], b, c) == Some(i),
        i.operands().len() == 2 ==> forall|c: u16|
            decode(i.opcode(), i.operands()[0], i.operands()[1], c) == Some(i),
        i.operands().len() == 3 ==> decode(
            i.opcode(),
            i.operands()[0],
            i.operands()[1],
            i.operands()[2],
        ) == Some(i),
{
}

/// Every opcode decodes to an instruction that carries that opcode and has
/// its arity.
pub proof fn lemma_decode_opcode(op: u16, a: u16, b: u16, c: u16)
    requires
        op <= 21,
    ensures
        decode(op, a, b, c) is Some,
        decode(op, a, b, c)->0.opcode() == op,
        decode(op, a, b, c)->0.operands().len() == arity(op),
{
}

} // verus!
