//! The fields of an instruction word.

use vstd::prelude::*;

verus! {

/// Mask of the family nibble, bits 15 to 12.
pub const BIT_MASK_3: u16 = 0xF000;

/// Mask of the nibble in bits 11 to 8.
pub const BIT_MASK_2: u16 = 0x0F00;

/// Mask of the nibble in bits 7 to 4.
pub const BIT_MASK_1: u16 = 0x00F0;

/// Mask of the nibble in bits 3 to 0.
pub const BIT_MASK_0: u16 = 0x000F;

/// An instruction word taken apart.
#[derive(Clone, Copy, Debug, PartialEq, Eq)]
pub struct Instruction {
    /// The word itself.
    pub raw: u16,
    /// Bits 15 to 12: the family the instruction belongs to.
    pub family: u8,
    /// Bits 11 to 8: a register index.
    pub x: usize,
    /// Bits 7 to 4: a register index.
    pub y: usize,
    /// Bits 3 to 0.
    pub n: u8,
    /// Bits 7 to 0.
    pub nn: u8,
    /// Bits 11 to 0: an address.
    pub nnn: u16,
}

/// The fields of the instruction word `raw`, each as the number that its
/// bits denote.
pub open spec fn spec_decode(raw: u16) -> Instruction {
    Instruction {
        raw,
        family: (raw / 0x1000) as u8,
        x: ((raw / 0x100) % 0x10) as usize,
        y: ((raw / 0x10) % 0x10) as usize,
        n: (raw % 0x10) as u8,
        nn: (raw % 0x100) as u8,
        nnn: (raw % 0x1000) as u16,
    }
}

/// Takes the instruction word `raw` apart.
pub fn decode(raw: u16) -> (fields: Instruction)
    ensures
        fields == spec_decode(raw),
        fields.family < 16,
        fields.x < 16,
        fields.y < 16,
        fields.n < 16,
        fields.nnn < 0x1000,
{
    let family: u16 = (raw & BIT_MASK_3) >> 12;
    let x: u16 = (raw & BIT_MASK_2) >> 8;
    let y: u16 = (raw & BIT_MASK_1) >> 4;
    let n: u16 = raw & BIT_MASK_0;
    let nn: u16 = raw & (BIT_MASK_1 | BIT_MASK_0);
    let nnn: u16 = raw & (BIT_MASK_2 | BIT_MASK_1 | BIT_MASK_0);
    assert((raw & 0xF000) >> 12 == raw / 0x1000) by (bit_vector);
    assert((raw & 0x0F00) >> 8 == (raw / 0x100) % 0x10) by (bit_vector);
    assert((raw & 0x00F0) >> 4 == (raw / 0x10) % 0x10) by (bit_vector);
    assert(raw & 0x000F == raw % 0x10) by (bit_vector);
    assert(raw & (0x00F0u16 | 0x000Fu16) == raw % 0x100) by (bit_vector);
    assert(raw & (0x0F00u16 | 0x00F0u16 | 0x000Fu16) == raw % 0x1000) by (bit_vector);
    Instruction {
        raw,
        family: family as u8,
        x: x as usize,
        y: y as usize,
        n: n as u8,
        nn: nn as u8,
        nnn,
    }
}

} // verus!
