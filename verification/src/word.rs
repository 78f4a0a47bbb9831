//! Words, the address-space layout and the arithmetic of the instruction set.

use vstd::prelude::*;

verus! {

/// First encoded word that names a register; also the modulus of `add` and `mult`.
pub const LIMIT: u16 = 32768;

/// Number of registers.
pub const REGISTERS: u16 = 8;

/// Number of cells in the address space: program memory followed by the registers.
pub const CELLS: usize = 32776;

/// The 15-bit complement of the low 15 bits of `x`.
pub open spec fn not15(x: u16) -> u16 {
    (32767 - (x as int) % 32768) as u16
}

/// The character code that the `out` instruction emits for the value `x`:
/// its low 8 bits.
pub open spec fn low_byte(x: u16) -> u8 {
    ((x as int) % 256) as u8
}

/// The word that the `in` instruction stores for the character `c`:
/// the low 16 bits of its code point.
pub open spec fn char_code(c: char) -> u16 {
    ((c as u32 as int) % 65536) as u16
}

/// The three-operand operations that compute a register from two values.
#[derive(Clone, Copy, Debug, PartialEq, Eq, Structural)]
pub enum BinOp {
    Eq,
    Gt,
    Add,
    Mult,
    Mod,
    And,
    Or,
}

impl BinOp {
    /// The result of the operation on the values `x` and `y`;
    /// `None` only for a remainder by zero.
    pub open spec fn apply(self, x: u16, y: u16) -> Option<u16> {
        match self {
            BinOp::Eq => Some(if x == y { 1u16 } else { 0u16 }),
            BinOp::Gt => Some(if x > y { 1u16 } else { 0u16 }),
            BinOp::Add => Some(((x + y) % 32768) as u16),
            BinOp::Mult => Some(((x * y) % 32768) as u16),
            BinOp::Mod => if y == 0 { None } else { Some((x % y) as u16) },
            BinOp::And => Some(x & y),
            BinOp::Or => Some(x | y),
        }
    }

    /// Computes the operation on `x` and `y`.
    pub fn eval(self, x: u16, y: u16) -> (r: Option<u16>)
        ensures
            r == self.apply(x, y),
    {
        match self {
            BinOp::Eq => Some(if x == y { 1 } else { 0 }),
            BinOp::Gt => Some(if x > y { 1 } else { 0 }),
            BinOp::Add => {
                let sum: u32 = x as u32 + y as u32;
                Some((sum % 32768) as u16)
            },
            BinOp::Mult => {
                assert(x * y <= 65535 * 65535) by (nonlinear_arith)
                    requires
                        x <= 65535,
                        y <= 65535,
                ;
                let product: u32 = x as u32 * y as u32;
                Some((product % 32768) as u16)
            },
            BinOp::Mod => if y == 0 { None } else { Some(x % y) },
            BinOp::And => Some(x & y),
            BinOp::Or => Some(x | y),
        }
    }
}

/// Computes the 15-bit complement of `x`.
pub fn complement(x: u16) -> (r: u16)
    ensures
        r == not15(x),
{
    let r: u16 = !x & 0x7fff;
    assert((!x & 0x7fff) == (32767 - (x as int) % 32768) as u16) by (bit_vector);
    r
}

/// Truncates `x` to the 8 bits that `out` emits.
pub fn truncate_to_byte(x: u16) -> (r: u8)
    ensures
        r == low_byte(x),
{
    let r: u8 = (x % 256) as u8;
    r
}

/// The word stored for a character read by `in`.
pub fn code_of(c: char) -> (r: u16)
    ensures
        r == char_code(c),
{
    let code: u32 = c as u32;
    (code % 65536) as u16
}

} // verus!
