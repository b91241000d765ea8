//! Raw opcodes and their decoding into symbolic instructions.
//!
//! An [`Opcode`] is the raw 2-byte instruction word fetched from memory.
//! [`Instruction::decode`] maps it to a closed set of symbolic variants
//! with extracted operands; a nibble pattern outside the recognized set
//! decodes to `None`, which the interpreter treats as a fatal fault.

use vstd::prelude::*;

verus! {

/// A raw 2-byte instruction word, big-endian: `self.0[0]` is the high byte.
#[derive(Clone, Copy, Debug)]
pub struct Opcode(pub [u8; 2]);

/// The four 4-bit nibbles of an instruction word, high to low.
pub open spec fn spec_nibbles(b0: u8, b1: u8) -> (u8, u8, u8, u8) {
    (b0 >> 4, b0 & 0x0F, b1 >> 4, b1 & 0x0F)
}

/// The `x` operand: a register index, the low nibble of the high byte.
pub open spec fn spec_x(b0: u8) -> u8 {
    b0 & 0x0F
}

/// The `y` operand: a register index, the high nibble of the low byte.
pub open spec fn spec_y(b1: u8) -> u8 {
    b1 >> 4
}

/// The `n` operand: a 4-bit count, the low nibble of the low byte.
pub open spec fn spec_n(b1: u8) -> u8 {
    b1 & 0x0F
}

/// The `nnn` operand: a 12-bit address, the low 12 bits of the word.
pub open spec fn spec_nnn(b0: u8, b1: u8) -> u16 {
    (((b0 as u16) << 8) | (b1 as u16)) & 0x0FFF
}

impl Opcode {
    /// Build an opcode from its two memory bytes, high byte first.
    pub fn new(b0: u8, b1: u8) -> (r: Opcode)
        ensures
            r.0[0] == b0 && r.0[1] == b1,
    {
        Opcode([b0, b1])
    }

    /// The four nibbles of the word, high to low.
    pub fn nibbles(&self) -> (r: (u8, u8, u8, u8))
        ensures
            r == spec_nibbles(self.0[0], self.0[1]),
    {
        (self.0[0] >> 4, self.0[0] & 0x0F, self.0[1] >> 4, self.0[1] & 0x0F)
    }

    /// The derived operand fields `(x, y, n, kk, nnn)`.
    pub fn interpret(&self) -> (r: (u8, u8, u8, u8, u16))
        ensures
            r.0 == spec_x(self.0[0]),
            r.1 == spec_y(self.0[1]),
            r.2 == spec_n(self.0[1]),
            r.3 == self.0[1],
            r.4 == spec_nnn(self.0[0], self.0[1]),
    {
        let nibbles = self.nibbles();

        // A 4-bit value, the lower 4 bits of the high byte of the instruction
        let x = nibbles.1;
        // A 4-bit value, the upper 4 bits of the low byte of the instruction
        let y = nibbles.2;
        // A 4-bit value, the lowest 4 bits of the instruction
        let n = nibbles.3;
        // An 8-bit value, the lowest 8 bits of the instruction
        let kk = self.0[1];
        // A 12-bit value, the lowest 12 bits of the instruction
        let nnn = (((self.0[0] as u16) << 8) | self.0[1] as u16) & 0x0FFF;

        (x, y, n, kk, nnn)
    }
}

/// A decoded instruction with its extracted operands.
#[derive(Clone, Copy, Debug, PartialEq, Eq, Structural)]
pub enum Instruction {
    Nop,
    Cls,
    Rts,
    Jmp { nnn: u16 },
    Call { nnn: u16 },
    Ske { x: u8, kk: u8 },
    Skne { x: u8, kk: u8 },
    Skre { x: u8, y: u8 },
    Load { x: u8, kk: u8 },
    Add { x: u8, kk: u8 },
    Move { x: u8, y: u8 },
    Or { x: u8, y: u8 },
    And { x: u8, y: u8 },
    Xor { x: u8, y: u8 },
    Addr { x: u8, y: u8 },
    Sub { x: u8, y: u8 },
    Shr { x: u8, y: u8 },
    Shl { x: u8, y: u8 },
    Skrne { x: u8, y: u8 },
    Loadi { nnn: u16 },
    Jumpi { nnn: u16 },
    Rand { x: u8, kk: u8 },
    Draw { x: u8, y: u8, n: u8 },
    Skpr { x: u8 },
    Skup { x: u8 },
    Moved { x: u8 },
    Keyd { x: u8 },
    Loadd { x: u8 },
    Loads { x: u8 },
    Addi { x: u8 },
    Ldspr { x: u8 },
    Bcd { x: u8 },
    Stor { x: u8 },
    Read { x: u8 },
}

/// What [`Instruction::decode`] yields on the bytes `(b0, b1)`: the decode
/// table of the instruction set. `None` is an unrecognized pattern.
pub open spec fn spec_decode(b0: u8, b1: u8) -> Option<Instruction> {
    let n0 = b0 >> 4;
    let n1 = b0 & 0x0F;
    let n2 = b1 >> 4;
    let n3 = b1 & 0x0F;
    let x = spec_x(b0);
    let y = spec_y(b1);
    let n = spec_n(b1);
    let kk = b1;
    let nnn = spec_nnn(b0, b1);
    if n0 == 0x0 && n1 == 0x0 && n2 == 0xE && n3 == 0x0 {
        Some(Instruction::Cls)
    } else if n0 == 0x0 && n1 == 0x0 && n2 == 0xE && n3 == 0xE {
        Some(Instruction::Rts)
    } else if n0 == 0x0 {
        Some(Instruction::Nop)
    } else if n0 == 0x1 {
        Some(Instruction::Jmp { nnn })
    } else if n0 == 0x2 {
        Some(Instruction::Call { nnn })
    } else if n0 == 0x3 {
        Some(Instruction::Ske { x, kk })
    } else if n0 == 0x4 {
        Some(Instruction::Skne { x, kk })
    } else if n0 == 0x5 {
        Some(Instruction::Skre { x, y })
    } else if n0 == 0x6 {
        Some(Instruction::Load { x, kk })
    } else if n0 == 0x7 {
        Some(Instruction::Add { x, kk })
    } else if n0 == 0x8 && n3 == 0x0 {
        Some(Instruction::Move { x, y })
    } else if n0 == 0x8 && n3 == 0x1 {
        Some(Instruction::Or { x, y })
    } else if n0 == 0x8 && n3 == 0x2 {
        Some(Instruction::And { x, y })
    } else if n0 == 0x8 && n3 == 0x3 {
        Some(Instruction::Xor { x, y })
    } else if n0 == 0x8 && n3 == 0x4 {
        Some(Instruction::Addr { x, y })
    } else if n0 == 0x8 && n3 == 0x5 {
        Some(Instruction::Sub { x, y })
    } else if n0 == 0x8 && n3 == 0x6 {
        Some(Instruction::Shr { x, y })
    } else if n0 == 0x8 && n3 == 0xE {
        Some(Instruction::Shl { x, y })
    } else if n0 == 0x9 {
        Some(Instruction::Skrne { x, y })
    } else if n0 == 0xA {
        Some(Instruction::Loadi { nnn })
    } else if n0 == 0xB {
        Some(Instruction::Jumpi { nnn })
    } else if n0 == 0xC {
        Some(Instruction::Rand { x, kk })
    } else if n0 == 0xD {
        Some(Instruction::Draw { x, y, n })
    } else if n0 == 0xE && n2 == 0x9 && n3 == 0xE {
        Some(Instruction::Skpr { x })
    } else if n0 == 0xE && n2 == 0xA && n3 == 0x1 {
        Some(Instruction::Skup { x })
    } else if n0 == 0xF && n2 == 0x0 && n3 == 0x7 {
        Some(Instruction::Moved { x })
    } else if n0 == 0xF && n2 == 0x0 && n3 == 0xA {
        Some(Instruction::Keyd { x })
    } else if n0 == 0xF && n2 == 0x1 && n3 == 0x5 {
        Some(Instruction::Loadd { x })
    } else if n0 == 0xF && n2 == 0x1 && n3 == 0x8 {
        Some(Instruction::Loads { x })
    } else if n0 == 0xF && n2 == 0x1 && n3 == 0xE {
        Some(Instruction::Addi { x })
    } else if n0 == 0xF && n2 == 0x2 && n3 == 0x9 {
        Some(Instruction::Ldspr { x })
    } else if n0 == 0xF && n2 == 0x3 && n3 == 0x3 {
        Some(Instruction::Bcd { x })
    } else if n0 == 0xF && n2 == 0x5 && n3 == 0x5 {
        Some(Instruction::Stor { x })
    } else if n0 == 0xF && n2 == 0x6 && n3 == 0x5 {
        Some(Instruction::Read { x })
    } else {
        None
    }
}

/// Every operand a decoded instruction carries lies in its field's range:
/// register indices and counts below 16, addresses below 4096.
pub open spec fn inst_wf(inst: Instruction) -> bool {
    match inst {
        Instruction::Nop => true,
        Instruction::Cls => true,
        Instruction::Rts => true,
        Instruction::Jmp { nnn } => nnn < 4096,
        Instruction::Call { nnn } => nnn < 4096,
        Instruction::Ske { x, kk } => x < 16,
        Instruction::Skne { x, kk } => x < 16,
        Instruction::Skre { x, y } => x < 16 && y < 16,
        Instruction::Load { x, kk } => x < 16,
        Instruction::Add { x, kk } => x < 16,
        Instruction::Move { x, y } => x < 16 && y < 16,
        Instruction::Or { x, y } => x < 16 && y < 16,
        Instruction::And { x, y } => x < 16 && y < 16,
        Instruction::Xor { x, y } => x < 16 && y < 16,
        Instruction::Addr { x, y } => x < 16 && y < 16,
        Instruction::Sub { x, y } => x < 16 && y < 16,
        Instruction::Shr { x, y } => x < 16 && y < 16,
        Instruction::Shl { x, y } => x < 16 && y < 16,
        Instruction::Skrne { x, y } => x < 16 && y < 16,
        Instruction::Loadi { nnn } => nnn < 4096,
        Instruction::Jumpi { nnn } => nnn < 4096,
        Instruction::Rand { x, kk } => x < 16,
        Instruction::Draw { x, y, n } => x < 16 && y < 16 && n < 16,
        Instruction::Skpr { x } => x < 16,
        Instruction::Skup { x } => x < 16,
        Instruction::Moved { x } => x < 16,
        Instruction::Keyd { x } => x < 16,
        Instruction::Loadd { x } => x < 16,
        Instruction::Loads { x } => x < 16,
        Instruction::Addi { x } => x < 16,
        Instruction::Ldspr { x } => x < 16,
        Instruction::Bcd { x } => x < 16,
        Instruction::Stor { x } => x < 16,
        Instruction::Read { x } => x < 16,
    }
}

/// Decoding only ever produces instructions with in-range operands.
pub proof fn lemma_decode_wf(b0: u8, b1: u8)
    ensures
        spec_decode(b0, b1) matches Some(inst) ==> inst_wf(inst),
{
    assert(b0 & 0x0F < 16 && b1 >> 4 < 16 && b1 & 0x0F < 16
        && (((b0 as u16) << 8) | (b1 as u16)) & 0x0FFF < 4096) by (bit_vector);
}

impl Instruction {
    /// Decode a raw opcode; `None` is an unrecognized nibble pattern,
    /// a fatal decode error for the interpreter.
    pub fn decode(opcode: Opcode) -> (r: Option<Instruction>)
        ensures
            r == spec_decode(opcode.0[0], opcode.0[1]),
            r matches Some(inst) ==> inst_wf(inst),
    {
        proof {
            lemma_decode_wf(opcode.0[0], opcode.0[1]);
        }
        let (x, y, n, kk, nnn) = opcode.interpret();

        match opcode.nibbles() {
            (0x0, 0x0, 0xE, 0x0) => Some(Instruction::Cls),
            (0x0, 0x0, 0xE, 0xE) => Some(Instruction::Rts),
            (0x0, _, _, _) => Some(Instruction::Nop),
            (0x1, _, _, _) => Some(Instruction::Jmp { nnn }),
            (0x2, _, _, _) => Some(Instruction::Call { nnn }),
            (0x3, _, _, _) => Some(Instruction::Ske { x, kk }),
            (0x4, _, _, _) => Some(Instruction::Skne { x, kk }),
            (0x5, _, _, _) => Some(Instruction::Skre { x, y }),
            (0x6, _, _, _) => Some(Instruction::Load { x, kk }),
            (0x7, _, _, _) => Some(Instruction::Add { x, kk }),
            (0x8, _, _, 0x0) => Some(Instruction::Move { x, y }),
            (0x8, _, _, 0x1) => Some(Instruction::Or { x, y }),
            (0x8, _, _, 0x2) => Some(Instruction::And { x, y }),
            (0x8, _, _, 0x3) => Some(Instruction::Xor { x, y }),
            (0x8, _, _, 0x4) => Some(Instruction::Addr { x, y }),
            (0x8, _, _, 0x5) => Some(Instruction::Sub { x, y }),
            (0x8, _, _, 0x6) => Some(Instruction::Shr { x, y }),
            (0x8, _, _, 0xE) => Some(Instruction::Shl { x, y }),
            (0x9, _, _, _) => Some(Instruction::Skrne { x, y }),
            (0xA, _, _, _) => Some(Instruction::Loadi { nnn }),
            (0xB, _, _, _) => Some(Instruction::Jumpi { nnn }),
            (0xC, _, _, _) => Some(Instruction::Rand { x, kk }),
            (0xD, _, _, _) => Some(Instruction::Draw { x, y, n }),
            (0xE, _, 0x9, 0xE) => Some(Instruction::Skpr { x }),
            (0xE, _, 0xA, 0x1) => Some(Instruction::Skup { x }),
            (0xF, _, 0x0, 0x7) => Some(Instruction::Moved { x }),
            (0xF, _, 0x0, 0xA) => Some(Instruction::Keyd { x }),
            (0xF, _, 0x1, 0x5) => Some(Instruction::Loadd { x }),
            (0xF, _, 0x1, 0x8) => Some(Instruction::Loads { x }),
            (0xF, _, 0x1, 0xE) => Some(Instruction::Addi { x }),
            (0xF, _, 0x2, 0x9) => Some(Instruction::Ldspr { x }),
            (0xF, _, 0x3, 0x3) => Some(Instruction::Bcd { x }),
            (0xF, _, 0x5, 0x5) => Some(Instruction::Stor { x }),
            (0xF, _, 0x6, 0x5) => Some(Instruction::Read { x }),
            _ => None,
        }
    }
}

} // verus!
