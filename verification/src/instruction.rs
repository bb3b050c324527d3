//! The decoded form of a two-byte instruction.

use vstd::prelude::*;

verus! {

/// A decoded instruction: the fields that the dispatcher reads, all derived
/// from the two bytes found at the program counter.
#[derive(Debug, Clone, Copy, PartialEq, Eq, Structural)]
pub struct Instruction {
    /// Opcode family: the high nibble of the first byte.
    pub instruction: u8,
    /// First register index: the low nibble of the first byte.
    pub x: u8,
    /// Second register index: the high nibble of the second byte.
    pub y: u8,
    /// The low nibble of the second byte.
    pub n: u8,
    /// The second byte.
    pub nn: u8,
    /// The low twelve bits of the big-endian pair.
    pub nnn: u16,
}

impl Instruction {
    /// What two bytes decode to.
    pub open spec fn from_bytes(first: u8, second: u8) -> Instruction {
        Instruction {
            instruction: first / 16,
            x: first % 16,
            y: second / 16,
            n: second % 16,
            nn: second,
            nnn: ((first % 16) * 256 + second) as u16,
        }
    }

    /// The fields are nibbles that fit together: every well-formed
    /// instruction is the decoding of exactly one pair of bytes.
    pub open spec fn wf(&self) -> bool {
        &&& self.instruction < 16
        &&& self.x < 16
        &&& self.y < 16
        &&& self.n < 16
        &&& self.nn == self.y * 16 + self.n
        &&& self.nnn == self.x * 256 + self.nn
    }

    /// The sixteen-bit big-endian opcode the instruction was decoded from.
    pub open spec fn opcode(&self) -> int {
        self.instruction * 4096 + self.nnn
    }

    /// Whether the machine implements the instruction. One that it does not
    /// implement is a no-op, which a host may want to report.
    pub open spec fn implemented(&self) -> bool {
        if self.instruction == 0x0 {
            self.y == 0xE && (self.n == 0x0 || self.n == 0xE)
        } else if self.instruction == 0x8 {
            self.n <= 0x7 || self.n == 0xE
        } else if self.instruction == 0xE {
            self.nn == 0x9E || self.nn == 0xA1
        } else if self.instruction == 0xF {
            self.nn == 0x0A || self.nn == 0x1E || self.nn == 0x33 || self.nn == 0x55 || self.nn
                == 0x65
        } else {
            self.instruction < 16
        }
    }

    /// Whether the machine implements the instruction.
    pub fn is_implemented(&self) -> (r: bool)
        ensures
            r == self.implemented(),
    {
        if self.instruction == 0x0 {
            self.y == 0xE && (self.n == 0x0 || self.n == 0xE)
        } else if self.instruction == 0x8 {
            self.n <= 0x7 || self.n == 0xE
        } else if self.instruction == 0xE {
            self.nn == 0x9E || self.nn == 0xA1
        } else if self.instruction == 0xF {
            self.nn == 0x0A || self.nn == 0x1E || self.nn == 0x33 || self.nn == 0x55 || self.nn
                == 0x65
        } else {
            self.instruction < 16
        }
    }

    /// Decodes the pair of bytes of one instruction.
    pub fn decode(first: u8, second: u8) -> (ins: Instruction)
        ensures
            ins == Instruction::from_bytes(first, second),
            ins.wf(),
            ins.opcode() == first * 256 + second,
    {
        let wide: u16 = ((first as u16) << 8) | (second as u16);
        assert(first >> 4 == first / 16) by (bit_vector);
        assert(first & 0x0F == first % 16) by (bit_vector);
        assert(second >> 4 == second / 16) by (bit_vector);
        assert(second & 0x0F == second % 16) by (bit_vector);
        assert((((first as u16) << 8) | (second as u16)) & 0x0FFF == (first % 16) * 256 + second)
            by (bit_vector);
        Instruction {
            instruction: first >> 4,
            x: first & 0x0F,
            y: second >> 4,
            n: second & 0x0F,
            nn: second,
            nnn: wide & 0x0FFF,
        }
    }
}

/// Decoding always yields a well-formed instruction, whose opcode is the
/// big-endian pair of the two bytes.
pub proof fn lemma_decode_wf(first: u8, second: u8)
    ensures
        Instruction::from_bytes(first, second).wf(),
        Instruction::from_bytes(first, second).opcode() == first * 256 + second,
{
}

} // verus!
