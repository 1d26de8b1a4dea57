//! The fields of a 16-bit instruction word.

use vstd::prelude::*;

verus! {

/// The nibble of `opcode` at `position`, 0 being the most significant.
pub open spec fn nibble(opcode: u16, position: int) -> int {
    if position == 0 {
        opcode as int / 0x1000
    } else if position == 1 {
        (opcode as int / 0x100) % 0x10
    } else if position == 2 {
        (opcode as int / 0x10) % 0x10
    } else {
        opcode as int % 0x10
    }
}

/// The operand `nnn`: the low twelve bits, an address.
pub open spec fn address_of(opcode: u16) -> nat {
    (opcode as int % 0x1000) as nat
}

/// The operand `kk`: the low eight bits, an immediate byte.
pub open spec fn byte_of(opcode: u16) -> u8 {
    (opcode as int % 0x100) as u8
}

/// The four nibbles and the operands `nnn` and `kk` of an instruction word.
pub struct Operands {
    /// The four nibbles, most significant first.
    pub nibbles: (u16, u16, u16, u16),
    /// The low twelve bits.
    pub nnn: usize,
    /// The low eight bits.
    pub kk: u8,
}

/// Split an instruction word into its nibbles and operands.
pub fn split(opcode: u16) -> (parts: Operands)
    ensures
        parts.nibbles.0 == nibble(opcode, 0),
        parts.nibbles.1 == nibble(opcode, 1),
        parts.nibbles.2 == nibble(opcode, 2),
        parts.nibbles.3 == nibble(opcode, 3),
        parts.nnn == address_of(opcode),
        parts.kk == byte_of(opcode),
{
    let nibbles = (
        (opcode & 0xF000) >> 12,
        (opcode & 0x0F00) >> 8,
        (opcode & 0x00F0) >> 4,
        (opcode & 0x000F),
    );
    let nnn = (opcode & 0x0FFF) as usize;
    let kk = (opcode & 0x00FF) as u8;
    assert((opcode & 0xF000) >> 12 == opcode / 0x1000) by (bit_vector);
    assert((opcode & 0x0F00) >> 8 == (opcode / 0x100) % 0x10) by (bit_vector);
    assert((opcode & 0x00F0) >> 4 == (opcode / 0x10) % 0x10) by (bit_vector);
    assert((opcode & 0x000F) == opcode % 0x10) by (bit_vector);
    assert((opcode & 0x0FFF) == opcode % 0x1000) by (bit_vector);
    assert((opcode & 0x00FF) == opcode % 0x100) by (bit_vector);
    Operands { nibbles, nnn, kk }
}

} // verus!
