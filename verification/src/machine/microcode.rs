//! The 32-bit microinstruction word of the Mic-1 control store.
use crate::memory::traits::FromBinaryStr;
use crate::parse::{parse_binary_u32, parse_unsigned, ParseIntError};
use vstd::prelude::*;

verus! {

/// The bits of `word` from `shift` up, cut to the bits of `mask`.
pub open spec fn field(word: u32, shift: u32, mask: u32) -> u32 {
    (word >> shift) & mask
}

/// Condition under which the next microinstruction is taken from the address field.
#[derive(Clone, Copy, Debug, PartialEq, Eq, Hash, Structural)]
pub enum Jump {
    NoJump,
    Negative,
    Zero,
    Always,
}

/// Operation of the ALU.
#[derive(Clone, Copy, Debug, PartialEq, Eq, Hash, Structural)]
pub enum Operation {
    Add,
    And,
    Assign,
    Invert,
}

/// Operation of the shifter behind the ALU.
#[derive(Clone, Copy, Debug, PartialEq, Eq, Hash, Structural)]
pub enum Shift {
    NoShift,
    Right,
    Left,
}

/// The jump condition that the two bits `v` encode.
pub open spec fn jump_of(v: u32) -> Jump {
    if v == 0 {
        Jump::NoJump
    } else if v == 1 {
        Jump::Negative
    } else if v == 2 {
        Jump::Zero
    } else {
        Jump::Always
    }
}

/// The ALU operation that the two bits `v` encode.
pub open spec fn operation_of(v: u32) -> Operation {
    if v == 0 {
        Operation::Add
    } else if v == 1 {
        Operation::And
    } else if v == 2 {
        Operation::Assign
    } else {
        Operation::Invert
    }
}

/// The shift that the two bits `v` encode; the unused code 3 falls back to no shift.
pub open spec fn shift_of(v: u32) -> Shift {
    if v == 1 {
        Shift::Right
    } else if v == 2 {
        Shift::Left
    } else {
        Shift::NoShift
    }
}

impl Jump {
    /// The condition encoded by the low two bits of `bits`.
    pub fn from_bits(bits: u8) -> (r: Jump)
        ensures
            r == jump_of((bits & 3) as u32),
    {
        let v = bits & 3;
        if v == 0 {
            Jump::NoJump
        } else if v == 1 {
            Jump::Negative
        } else if v == 2 {
            Jump::Zero
        } else {
            Jump::Always
        }
    }

    /// The two-bit code of this condition.
    pub fn into_bits(self) -> (r: u8)
        ensures
            r < 4,
            jump_of(r as u32) == self,
    {
        match self {
            Jump::NoJump => 0,
            Jump::Negative => 1,
            Jump::Zero => 2,
            Jump::Always => 3,
        }
    }
}

impl Operation {
    /// The operation encoded by the low two bits of `bits`.
    pub fn from_bits(bits: u8) -> (r: Operation)
        ensures
            r == operation_of((bits & 3) as u32),
    {
        let v = bits & 3;
        if v == 0 {
            Operation::Add
        } else if v == 1 {
            Operation::And
        } else if v == 2 {
            Operation::Assign
        } else {
            Operation::Invert
        }
    }

    /// The two-bit code of this operation.
    pub fn into_bits(self) -> (r: u8)
        ensures
            r < 4,
            operation_of(r as u32) == self,
    {
        match self {
            Operation::Add => 0,
            Operation::And => 1,
            Operation::Assign => 2,
            Operation::Invert => 3,
        }
    }
}

impl Shift {
    /// The shift encoded by the low two bits of `bits`; code 3 gives no shift.
    pub fn from_bits(bits: u8) -> (r: Shift)
        ensures
            r == shift_of((bits & 3) as u32),
    {
        let v = bits & 3;
        if v == 1 {
            Shift::Right
        } else if v == 2 {
            Shift::Left
        } else {
            Shift::NoShift
        }
    }

    /// The two-bit code of this shift.
    pub fn into_bits(self) -> (r: u8)
        ensures
            r < 3,
            shift_of(r as u32) == self,
    {
        match self {
            Shift::NoShift => 0,
            Shift::Right => 1,
            Shift::Left => 2,
        }
    }
}

/// Bit positions of the fields, counted from the least significant bit.
pub const AMUX_SHIFT: u32 = 31;
pub const COND_SHIFT: u32 = 29;
pub const ALU_SHIFT: u32 = 27;
pub const SH_SHIFT: u32 = 25;
pub const MBR_SHIFT: u32 = 24;
pub const MAR_SHIFT: u32 = 23;
pub const RD_SHIFT: u32 = 22;
pub const WR_SHIFT: u32 = 21;
pub const ENC_SHIFT: u32 = 20;
pub const C_SHIFT: u32 = 16;
pub const B_SHIFT: u32 = 12;
pub const A_SHIFT: u32 = 8;
pub const ADDR_SHIFT: u32 = 0;

/// A Mic-1 microinstruction. From the most significant bit down its fields are
/// AMUX (1 bit), COND (2), ALU (2), SH (2), MBR (1), MAR (1), RD (1), WR (1),
/// ENC (1), C (4), B (4), A (4) and ADDR (8).
#[derive(Clone, Copy, Debug, PartialEq, Eq, Hash)]
pub struct MicroInstruction(pub u32);

impl View for MicroInstruction {
    type V = u32;

    open spec fn view(&self) -> u32 {
        self.0
    }
}

/// The value of the one-bit field at `shift`.
pub open spec fn bit_field(word: u32, shift: u32) -> bool {
    field(word, shift, 1) == 1
}

/// The word of the default microinstruction: only RD and WR are set.
pub const DEFAULT_MICRO_INSTRUCTION: u32 = 0x0060_0000;

/// Masking a word leaves the bits of the mask and nothing above them.
proof fn lemma_masked(w: u32)
    by (bit_vector)
    ensures
        (w & 3) & 3 == w & 3,
        w & 3 < 4,
        w & 15 < 16,
        w & 255 < 256,
        w >> 0u32 == w,
{
}

impl MicroInstruction {
    /// The microinstruction whose word is `bits`.
    pub fn from_bits(bits: u32) -> (r: Self)
        ensures
            r@ == bits,
    {
        MicroInstruction(bits)
    }

    /// The word of this microinstruction.
    pub fn into_bits(self) -> (r: u32)
        ensures
            r == self@,
    {
        self.0
    }

    /// AMUX: whether the left ALU input is the MBR (else the A latch).
    pub fn amux(&self) -> (r: bool)
        ensures
            r == bit_field(self@, AMUX_SHIFT),
    {
        (self.0 >> AMUX_SHIFT) & 1 == 1
    }

    /// COND: when to jump to ADDR.
    pub fn cond(&self) -> (r: Jump)
        ensures
            r == jump_of(field(self@, COND_SHIFT, 3)),
    {
        let v = (self.0 >> COND_SHIFT) & 3;
        proof {
            lemma_masked(self.0 >> COND_SHIFT);
        }
        Jump::from_bits(v as u8)
    }

    /// ALU: the operation of the ALU.
    pub fn alu(&self) -> (r: Operation)
        ensures
            r == operation_of(field(self@, ALU_SHIFT, 3)),
    {
        let v = (self.0 >> ALU_SHIFT) & 3;
        proof {
            lemma_masked(self.0 >> ALU_SHIFT);
        }
        Operation::from_bits(v as u8)
    }

    /// SH: the operation of the shifter.
    pub fn sh(&self) -> (r: Shift)
        ensures
            r == shift_of(field(self@, SH_SHIFT, 3)),
    {
        let v = (self.0 >> SH_SHIFT) & 3;
        proof {
            lemma_masked(self.0 >> SH_SHIFT);
        }
        Shift::from_bits(v as u8)
    }

    /// MBR: whether the shifter output is loaded into the MBR.
    pub fn mbr(&self) -> (r: bool)
        ensures
            r == bit_field(self@, MBR_SHIFT),
    {
        (self.0 >> MBR_SHIFT) & 1 == 1
    }

    /// MAR: whether the B latch is loaded into the MAR.
    pub fn mar(&self) -> (r: bool)
        ensures
            r == bit_field(self@, MAR_SHIFT),
    {
        (self.0 >> MAR_SHIFT) & 1 == 1
    }

    /// RD: whether memory is read into the MBR.
    pub fn rd(&self) -> (r: bool)
        ensures
            r == bit_field(self@, RD_SHIFT),
    {
        (self.0 >> RD_SHIFT) & 1 == 1
    }

    /// WR: whether the MBR is written to memory.
    pub fn wr(&self) -> (r: bool)
        ensures
            r == bit_field(self@, WR_SHIFT),
    {
        (self.0 >> WR_SHIFT) & 1 == 1
    }

    /// ENC: whether the C bus is stored into a register.
    pub fn enc(&self) -> (r: bool)
        ensures
            r == bit_field(self@, ENC_SHIFT),
    {
        (self.0 >> ENC_SHIFT) & 1 == 1
    }

    /// C: the register that the C bus is stored into.
    pub fn c(&self) -> (r: u8)
        ensures
            r as u32 == field(self@, C_SHIFT, 15),
            r < 16,
    {
        let v = (self.0 >> C_SHIFT) & 15;
        proof {
            lemma_masked(self.0 >> C_SHIFT);
        }
        v as u8
    }

    /// B: the register gated onto the B bus.
    pub fn b(&self) -> (r: u8)
        ensures
            r as u32 == field(self@, B_SHIFT, 15),
            r < 16,
    {
        let v = (self.0 >> B_SHIFT) & 15;
        proof {
            lemma_masked(self.0 >> B_SHIFT);
        }
        v as u8
    }

    /// A: the register gated onto the A bus.
    pub fn a(&self) -> (r: u8)
        ensures
            r as u32 == field(self@, A_SHIFT, 15),
            r < 16,
    {
        let v = (self.0 >> A_SHIFT) & 15;
        proof {
            lemma_masked(self.0 >> A_SHIFT);
        }
        v as u8
    }

    /// ADDR: the control-store address of a jump.
    pub fn addr(&self) -> (r: u8)
        ensures
            r as u32 == field(self@, ADDR_SHIFT, 255),
    {
        let v = self.0 & 255;
        proof {
            lemma_masked(self.0);
        }
        v as u8
    }
}

impl Default for MicroInstruction {
    /// The default microinstruction has only RD and WR set, so it halts the machine.
    fn default() -> (r: Self)
        ensures
            r@ == DEFAULT_MICRO_INSTRUCTION,
    {
        MicroInstruction(DEFAULT_MICRO_INSTRUCTION)
    }
}

/// The thirteen fields cover the whole word: two words with the same fields
/// are the same word.
pub proof fn lemma_fields_determine_word(w1: u32, w2: u32)
    requires
        bit_field(w1, AMUX_SHIFT) == bit_field(w2, AMUX_SHIFT),
        field(w1, COND_SHIFT, 3) == field(w2, COND_SHIFT, 3),
        field(w1, ALU_SHIFT, 3) == field(w2, ALU_SHIFT, 3),
        field(w1, SH_SHIFT, 3) == field(w2, SH_SHIFT, 3),
        bit_field(w1, MBR_SHIFT) == bit_field(w2, MBR_SHIFT),
        bit_field(w1, MAR_SHIFT) == bit_field(w2, MAR_SHIFT),
        bit_field(w1, RD_SHIFT) == bit_field(w2, RD_SHIFT),
        bit_field(w1, WR_SHIFT) == bit_field(w2, WR_SHIFT),
        bit_field(w1, ENC_SHIFT) == bit_field(w2, ENC_SHIFT),
        field(w1, C_SHIFT, 15) == field(w2, C_SHIFT, 15),
        field(w1, B_SHIFT, 15) == field(w2, B_SHIFT, 15),
        field(w1, A_SHIFT, 15) == field(w2, A_SHIFT, 15),
        field(w1, ADDR_SHIFT, 255) == field(w2, ADDR_SHIFT, 255),
    ensures
        w1 == w2,
{
    assert(w1 == w2) by (bit_vector)
        requires
            ((w1 >> 31u32) & 1u32 == 1u32) == ((w2 >> 31u32) & 1u32 == 1u32),
            (w1 >> 29u32) & 3u32 == (w2 >> 29u32) & 3u32,
            (w1 >> 27u32) & 3u32 == (w2 >> 27u32) & 3u32,
            (w1 >> 25u32) & 3u32 == (w2 >> 25u32) & 3u32,
            ((w1 >> 24u32) & 1u32 == 1u32) == ((w2 >> 24u32) & 1u32 == 1u32),
            ((w1 >> 23u32) & 1u32 == 1u32) == ((w2 >> 23u32) & 1u32 == 1u32),
            ((w1 >> 22u32) & 1u32 == 1u32) == ((w2 >> 22u32) & 1u32 == 1u32),
            ((w1 >> 21u32) & 1u32 == 1u32) == ((w2 >> 21u32) & 1u32 == 1u32),
            ((w1 >> 20u32) & 1u32 == 1u32) == ((w2 >> 20u32) & 1u32 == 1u32),
            (w1 >> 16u32) & 15u32 == (w2 >> 16u32) & 15u32,
            (w1 >> 12u32) & 15u32 == (w2 >> 12u32) & 15u32,
            (w1 >> 8u32) & 15u32 == (w2 >> 8u32) & 15u32,
            (w1 >> 0u32) & 255u32 == (w2 >> 0u32) & 255u32,
    ;
}

/// The default microinstruction reads and writes at once, so it halts, and
/// every other field of it is zero.
pub proof fn lemma_default_halts()
    ensures
        bit_field(DEFAULT_MICRO_INSTRUCTION, RD_SHIFT),
        bit_field(DEFAULT_MICRO_INSTRUCTION, WR_SHIFT),
        !bit_field(DEFAULT_MICRO_INSTRUCTION, AMUX_SHIFT),
        !bit_field(DEFAULT_MICRO_INSTRUCTION, ENC_SHIFT),
        jump_of(field(DEFAULT_MICRO_INSTRUCTION, COND_SHIFT, 3)) == Jump::NoJump,
        field(DEFAULT_MICRO_INSTRUCTION, ADDR_SHIFT, 255) == 0,
{
    assert((0x0060_0000u32 >> 22u32) & 1u32 == 1u32) by (bit_vector);
    assert((0x0060_0000u32 >> 21u32) & 1u32 == 1u32) by (bit_vector);
    assert((0x0060_0000u32 >> 31u32) & 1u32 == 0u32) by (bit_vector);
    assert((0x0060_0000u32 >> 20u32) & 1u32 == 0u32) by (bit_vector);
    assert((0x0060_0000u32 >> 29u32) & 3u32 == 0u32) by (bit_vector);
    assert((0x0060_0000u32 >> 0u32) & 255u32 == 0u32) by (bit_vector);
}

/// The outcome of reading `bytes` as a microinstruction word of binary digits.
pub open spec fn binary_micro_instruction_spec(bytes: Seq<u8>) -> Result<MicroInstruction, ParseIntError> {
    match parse_unsigned(bytes, 2, u32::MAX as nat) {
        Ok(v) => Ok(MicroInstruction(v as u32)),
        Err(kind) => Err(ParseIntError { kind }),
    }
}

impl FromBinaryStr for MicroInstruction {
    type Error = ParseIntError;

    open spec fn binary_str_spec(bytes: Seq<u8>) -> Result<MicroInstruction, ParseIntError> {
        binary_micro_instruction_spec(bytes)
    }

    fn from_binary_str(s: &str) -> (r: Result<MicroInstruction, ParseIntError>) {
        match parse_binary_u32(s) {
            Ok(v) => Ok(MicroInstruction::from_bits(v)),
            Err(e) => Err(e),
        }
    }
}

} // verus!
