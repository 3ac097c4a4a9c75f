use vstd::prelude::*;

verus! {

/// A CHIP-8 instruction word: two bytes that decode into four 4-bit fields
/// (`op`, `x`, `y`, `n`) and two composite views (`kk`, the low byte, and
/// `nnn`, the low 12 bits).  Every 16-bit pattern decodes; there is no
/// failure mode.
pub struct Instruction {
    bytes: [u8; 2],
}

impl View for Instruction {
    type V = u16;

    /// The instruction as the 16-bit word it was fetched as: the first byte
    /// is the high byte.
    closed spec fn view(&self) -> u16 {
        ((self.bytes[0] as u16) << 8) | (self.bytes[1] as u16)
    }
}

/// Relates the two fetched bytes and the four nibble fields to the 16-bit
/// word they form.
proof fn lemma_word_fields(b0: u8, b1: u8)
    by (bit_vector)
    ensures
        (b0 >> 4) as u16 == (((b0 as u16) << 8 | (b1 as u16)) >> 12) & 0xF,
        (b0 & 0xF) as u16 == (((b0 as u16) << 8 | (b1 as u16)) >> 8) & 0xF,
        (b1 >> 4) as u16 == (((b0 as u16) << 8 | (b1 as u16)) >> 4) & 0xF,
        (b1 & 0xF) as u16 == ((b0 as u16) << 8 | (b1 as u16)) & 0xF,
        b1 as u16 == ((b0 as u16) << 8 | (b1 as u16)) & 0xFF,
        ((b0 & 0xF) as u16) << 8 | (b1 as u16) == ((b0 as u16) << 8 | (b1 as u16)) & 0x0FFF,
        b0 >> 4 < 0x10,
        b0 & 0xF < 0x10,
        b1 >> 4 < 0x10,
        b1 & 0xF < 0x10,
        ((b0 & 0xF) as u16) << 8 | (b1 as u16) < 0x1000,
{
}

impl Instruction {
    pub fn new(instruction_bytes: &[u8; 2]) -> (r: Self)
        ensures
            r@ == ((instruction_bytes[0] as u16) << 8) | (instruction_bytes[1] as u16),
    {
        Self { bytes: [instruction_bytes[0], instruction_bytes[1]] }
    }

    /// All four nibble fields at once, highest first.
    pub fn nibbles_lo(&self) -> (r: (u8, u8, u8, u8))
        ensures
            r.0 == (self@ >> 12) & 0xF,
            r.1 == (self@ >> 8) & 0xF,
            r.2 == (self@ >> 4) & 0xF,
            r.3 == self@ & 0xF,
            r.0 < 0x10 && r.1 < 0x10 && r.2 < 0x10 && r.3 < 0x10,
    {
        (self.first_nibble(), self.second_nibble(), self.third_nibble(), self.fourth_nibble())
    }

    pub fn first_nibble(&self) -> (r: u8)
        ensures
            r == (self@ >> 12) & 0xF,
            r < 0x10,
    {
        proof {
            lemma_word_fields(self.bytes[0], self.bytes[1]);
        }
        self.bytes[0] >> 4
    }

    pub fn second_nibble(&self) -> (r: u8)
        ensures
            r == (self@ >> 8) & 0xF,
            r < 0x10,
    {
        proof {
            lemma_word_fields(self.bytes[0], self.bytes[1]);
        }
        self.bytes[0] & 0xF
    }

    pub fn third_nibble(&self) -> (r: u8)
        ensures
            r == (self@ >> 4) & 0xF,
            r < 0x10,
    {
        proof {
            lemma_word_fields(self.bytes[0], self.bytes[1]);
        }
        self.bytes[1] >> 4
    }

    pub fn fourth_nibble(&self) -> (r: u8)
        ensures
            r == self@ & 0xF,
            r < 0x10,
    {
        proof {
            lemma_word_fields(self.bytes[0], self.bytes[1]);
        }
        self.bytes[1] & 0xF
    }

    /// The second nibble, which names the register Vx.
    pub fn x(&self) -> (r: u8)
        ensures
            r == (self@ >> 8) & 0xF,
            r < 0x10,
    {
        self.second_nibble()
    }

    /// The third nibble, which names the register Vy.
    pub fn y(&self) -> (r: u8)
        ensures
            r == (self@ >> 4) & 0xF,
            r < 0x10,
    {
        self.third_nibble()
    }

    /// The low byte of the word.
    pub fn kk(&self) -> (r: u8)
        ensures
            r == self@ & 0xFF,
    {
        proof {
            lemma_word_fields(self.bytes[0], self.bytes[1]);
        }
        self.bytes[1]
    }

    /// The low 12 bits of the word: a memory address.
    pub fn nnn(&self) -> (r: u16)
        ensures
            r == self@ & 0x0FFF,
            r < 0x1000,
    {
        proof {
            lemma_word_fields(self.bytes[0], self.bytes[1]);
        }
        ((self.bytes[0] & 0xF) as u16) << 8 | (self.bytes[1] as u16)
    }
}

/// Every 16-bit word decodes into its fields exactly: `nnn` is the low 12
/// bits, `kk` the low byte, and `x`, `y`, `n` the second, third and fourth
/// nibbles.
pub proof fn lemma_decode_total(word: u16)
    by (bit_vector)
    ensures
        word & 0x0FFF < 0x1000,
        word & 0x00FF < 0x100,
        (word >> 8) & 0xF < 0x10,
        (word >> 4) & 0xF < 0x10,
        word & 0xF < 0x10,
        word & 0x0FFF == ((word >> 8) & 0xF) * 0x100 + (word & 0xFF),
{
}

} // verus!
