//! Decoding of 16-bit opcodes into structured instructions.
//!
//! Decoding is a pure, total function: every 16-bit value decodes to some
//! instruction, with values outside the defined table mapped to
//! `Instruction::Unknown` so that the executor can reject them explicitly.

use vstd::prelude::*;

verus! {

/// A decoded instruction: an operation tag with its operand fields.
///
/// `x` and `y` are 4-bit register indices (always below 16), `nnn` a 12-bit
/// address immediate (always below 0x1000), and `kk` an 8-bit literal.
#[derive(Clone, Copy, Debug, PartialEq, Eq, Structural)]
pub enum Instruction {
    /// 0x0000: stop the run loop.
    Halt,
    /// 0x00E0: clear the display; delegated to an external collaborator, so
    /// no effect on the core state.
    ClearDisplay,
    /// 0x00EE: pop the call stack into the program counter.
    Return,
    /// 0x1nnn: set the program counter to `nnn`.
    Jump { nnn: u16 },
    /// 0x2nnn: push the program counter, then set it to `nnn`.
    Call { nnn: u16 },
    /// 0x3xkk: skip the next instruction if register `x` equals `kk`.
    SkipIfEqual { x: u8, kk: u8 },
    /// 0x4xkk: skip the next instruction if register `x` differs from `kk`.
    SkipIfNotEqual { x: u8, kk: u8 },
    /// 0x5xy0: skip the next instruction if registers `x` and `y` are equal.
    SkipIfRegistersEqual { x: u8, y: u8 },
    /// 0x6xkk: load `kk` into register `x`.
    LoadImmediate { x: u8, kk: u8 },
    /// 0x7xkk: add `kk` to register `x`, wrapping; the flag is not touched.
    AddImmediate { x: u8, kk: u8 },
    /// 0x8xy4: add register `y` into register `x`, wrapping; VF gets the carry.
    AddRegisters { x: u8, y: u8 },
    /// 0x8xy5: subtract register `y` from register `x`, wrapping; VF gets
    /// 1 on a borrow, else 0.
    Subtract { x: u8, y: u8 },
    /// 0x8xy7: register `x` becomes register `y` minus register `x`, with the
    /// same borrow rule on VF.
    ReverseSubtract { x: u8, y: u8 },
    /// 0x8xyE: shift register `x` left by one, truncating; VF gets the
    /// most-significant bit the register held before the shift.
    ShiftLeft { x: u8 },
    /// Any value outside the table; carries the raw opcode.
    Unknown { opcode: u16 },
}

/// Bits 15-12 of an opcode: the primary opcode class.
pub open spec fn op_class(op: u16) -> u16 {
    op / 0x1000
}

/// Bits 11-8 of an opcode: the first register operand index.
pub open spec fn op_x(op: u16) -> u8 {
    ((op / 0x100) % 0x10) as u8
}

/// Bits 7-4 of an opcode: the second register operand index.
pub open spec fn op_y(op: u16) -> u8 {
    ((op / 0x10) % 0x10) as u8
}

/// Bits 3-0 of an opcode: the secondary selector within class 0x8.
pub open spec fn op_d(op: u16) -> u16 {
    op % 0x10
}

/// Bits 11-0 of an opcode: the 12-bit address immediate.
pub open spec fn op_nnn(op: u16) -> u16 {
    op % 0x1000
}

/// Bits 7-0 of an opcode: the 8-bit literal immediate.
pub open spec fn op_kk(op: u16) -> u8 {
    (op % 0x100) as u8
}

/// The instruction a 16-bit opcode stands for.
pub open spec fn spec_decode(op: u16) -> Instruction {
    if op == 0x0000 {
        Instruction::Halt
    } else if op == 0x00E0 {
        Instruction::ClearDisplay
    } else if op == 0x00EE {
        Instruction::Return
    } else if op_class(op) == 0x1 {
        Instruction::Jump { nnn: op_nnn(op) }
    } else if op_class(op) == 0x2 {
        Instruction::Call { nnn: op_nnn(op) }
    } else if op_class(op) == 0x3 {
        Instruction::SkipIfEqual { x: op_x(op), kk: op_kk(op) }
    } else if op_class(op) == 0x4 {
        Instruction::SkipIfNotEqual { x: op_x(op), kk: op_kk(op) }
    } else if op_class(op) == 0x5 && op_d(op) == 0x0 {
        Instruction::SkipIfRegistersEqual { x: op_x(op), y: op_y(op) }
    } else if op_class(op) == 0x6 {
        Instruction::LoadImmediate { x: op_x(op), kk: op_kk(op) }
    } else if op_class(op) == 0x7 {
        Instruction::AddImmediate { x: op_x(op), kk: op_kk(op) }
    } else if op_class(op) == 0x8 && op_d(op) == 0x4 {
        Instruction::AddRegisters { x: op_x(op), y: op_y(op) }
    } else if op_class(op) == 0x8 && op_d(op) == 0x5 {
        Instruction::Subtract { x: op_x(op), y: op_y(op) }
    } else if op_class(op) == 0x8 && op_d(op) == 0x7 {
        Instruction::ReverseSubtract { x: op_x(op), y: op_y(op) }
    } else if op_class(op) == 0x8 && op_d(op) == 0xE {
        Instruction::ShiftLeft { x: op_x(op) }
    } else {
        Instruction::Unknown { opcode: op }
    }
}

/// Decodes a 16-bit opcode. Pure and total: it never fails and mutates
/// nothing; unrecognised values come back as `Instruction::Unknown`.
pub fn decode(op: u16) -> (instruction: Instruction)
    ensures
        instruction == spec_decode(op),
{
    let class = op / 0x1000;
    let x = ((op / 0x100) % 0x10) as u8;
    let y = ((op / 0x10) % 0x10) as u8;
    let d = op % 0x10;
    let nnn = op % 0x1000;
    let kk = (op % 0x100) as u8;
    if op == 0x0000 {
        Instruction::Halt
    } else if op == 0x00E0 {
        Instruction::ClearDisplay
    } else if op == 0x00EE {
        Instruction::Return
    } else if class == 0x1 {
        Instruction::Jump { nnn }
    } else if class == 0x2 {
        Instruction::Call { nnn }
    } else if class == 0x3 {
        Instruction::SkipIfEqual { x, kk }
    } else if class == 0x4 {
        Instruction::SkipIfNotEqual { x, kk }
    } else if class == 0x5 && d == 0x0 {
        Instruction::SkipIfRegistersEqual { x, y }
    } else if class == 0x6 {
        Instruction::LoadImmediate { x, kk }
    } else if class == 0x7 {
        Instruction::AddImmediate { x, kk }
    } else if class == 0x8 && d == 0x4 {
        Instruction::AddRegisters { x, y }
    } else if class == 0x8 && d == 0x5 {
        Instruction::Subtract { x, y }
    } else if class == 0x8 && d == 0x7 {
        Instruction::ReverseSubtract { x, y }
    } else if class == 0x8 && d == 0xE {
        Instruction::ShiftLeft { x }
    } else {
        Instruction::Unknown { opcode: op }
    }
}

} // verus!
