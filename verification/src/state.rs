//! The mathematical model of the machine: an abstract state and the
//! transition each operation makes on it.
//!
//! `CpuView` is the ghost image of the executable machine. The spec
//! functions here say, over that image, exactly what each operation does;
//! `spec_step` composes fetch, decode, and execution into the semantics of
//! one full cycle, and `spec_run_n` iterates it.

use vstd::prelude::*;

use crate::decode::{
    spec_decode, Instruction, op_x, op_y, op_kk, op_nnn,
};
use crate::fault::{Fault, Flow};

verus! {

/// Number of general-purpose registers, the flag register VF included.
pub const REGISTER_COUNT: usize = 16;

/// Index of the reserved flag register VF.
pub const FLAG_REGISTER: usize = 15;

/// Capacity of the call stack, in return addresses.
pub const STACK_CAPACITY: usize = 16;

/// Number of addressable bytes of memory.
pub const MEMORY_SIZE: usize = 4096;

/// The abstract state of the machine: the four data-model aggregates.
#[verifier::ext_equal]
pub ghost struct CpuView {
    pub registers: Seq<u8>,
    pub program_counter: int,
    pub stack: Seq<u16>,
    pub stack_pointer: int,
    pub memory: Seq<u8>,
}

impl CpuView {
    /// Well-formedness: the aggregates have their fixed sizes, the stack
    /// pointer counts the live entries, and the program counter fits in a
    /// 16-bit return address. Every cycle preserves this.
    pub open spec fn wf(self) -> bool {
        &&& self.registers.len() == REGISTER_COUNT
        &&& self.stack.len() == STACK_CAPACITY
        &&& self.memory.len() == MEMORY_SIZE
        &&& 0 <= self.stack_pointer <= STACK_CAPACITY
        &&& 0 <= self.program_counter <= u16::MAX
    }
}

/// The 16-bit opcode at the program counter: high byte first.
pub open spec fn spec_fetch(s: CpuView) -> u16 {
    (s.memory[s.program_counter] * 0x100 + s.memory[s.program_counter + 1]) as u16
}

/// Load immediate: register `x` becomes `kk`.
pub open spec fn ld_spec(s: CpuView, x: u8, kk: u8) -> CpuView {
    CpuView { registers: s.registers.update(x as int, kk), ..s }
}

/// Skip-if-equal: the program counter advances by an extra 2 exactly when
/// register `x` equals `kk`.
pub open spec fn se_spec(s: CpuView, x: u8, kk: u8) -> CpuView {
    if s.registers[x as int] == kk {
        CpuView { program_counter: s.program_counter + 2, ..s }
    } else {
        s
    }
}

/// Skip-if-not-equal: the program counter advances by an extra 2 exactly
/// when register `x` differs from `kk`.
pub open spec fn sne_spec(s: CpuView, x: u8, kk: u8) -> CpuView {
    if s.registers[x as int] != kk {
        CpuView { program_counter: s.program_counter + 2, ..s }
    } else {
        s
    }
}

/// Skip-if-registers-equal: the program counter advances by an extra 2
/// exactly when registers `x` and `y` hold the same value.
pub open spec fn se_xy_spec(s: CpuView, x: u8, y: u8) -> CpuView {
    if s.registers[x as int] == s.registers[y as int] {
        CpuView { program_counter: s.program_counter + 2, ..s }
    } else {
        s
    }
}

/// Add immediate: register `x` becomes `x + kk` wrapped to 8 bits. The flag
/// register is deliberately not touched: this asymmetry with the
/// register-register add is part of the instruction set.
pub open spec fn add_spec(s: CpuView, x: u8, kk: u8) -> CpuView {
    CpuView {
        registers: s.registers.update(x as int, ((s.registers[x as int] + kk) % 0x100) as u8),
        ..s
    }
}

/// Register `x` updated to `value`, then VF updated to `flag` as the final
/// step: on the flag register itself, the flag wins.
pub open spec fn with_flag(registers: Seq<u8>, x: u8, value: u8, flag: u8) -> Seq<u8> {
    registers.update(x as int, value).update(FLAG_REGISTER as int, flag)
}

/// Add registers: register `x` becomes the 8-bit wraparound of the
/// mathematical sum, and VF becomes 1 exactly when that sum exceeds 255.
pub open spec fn add_xy_spec(s: CpuView, x: u8, y: u8) -> CpuView {
    let sum = s.registers[x as int] + s.registers[y as int];
    CpuView {
        registers: with_flag(
            s.registers,
            x,
            (sum % 0x100) as u8,
            if sum > 0xFF { 1u8 } else { 0u8 },
        ),
        ..s
    }
}

/// Subtract: register `x` becomes `x - y` wrapped to 8 bits, and VF becomes
/// 1 exactly when the subtraction borrows (`x < y` before the wrap).
pub open spec fn sub_spec(s: CpuView, x: u8, y: u8) -> CpuView {
    let difference = s.registers[x as int] - s.registers[y as int];
    CpuView {
        registers: with_flag(
            s.registers,
            x,
            (difference % 0x100) as u8,
            if difference < 0 { 1u8 } else { 0u8 },
        ),
        ..s
    }
}

/// Shift left: register `x` doubles, truncated to 8 bits, and VF becomes the
/// most-significant bit the register held before the shift.
pub open spec fn shl_spec(s: CpuView, x: u8) -> CpuView {
    let before = s.registers[x as int];
    CpuView {
        registers: with_flag(
            s.registers,
            x,
            ((before * 2) % 0x100) as u8,
            if before >= 0x80 { 1u8 } else { 0u8 },
        ),
        ..s
    }
}

/// Multiply registers: register `x` becomes the 8-bit wraparound of the
/// mathematical product, and VF becomes 1 exactly when that product
/// exceeds 255.
pub open spec fn multiply_xy_spec(s: CpuView, x: u8, y: u8) -> CpuView {
    let product = s.registers[x as int] * s.registers[y as int];
    CpuView {
        registers: with_flag(
            s.registers,
            x,
            (product % 0x100) as u8,
            if product > 0xFF { 1u8 } else { 0u8 },
        ),
        ..s
    }
}

/// Jump: the program counter becomes `addr`.
pub open spec fn jmp_spec(s: CpuView, addr: u16) -> CpuView {
    CpuView { program_counter: addr as int, ..s }
}

/// A successful call: the current program counter (already advanced past the
/// call instruction) is pushed as the return address, and execution moves
/// to `addr`. Meaningful only when the stack is not full.
pub open spec fn call_ok(s: CpuView, addr: u16) -> CpuView {
    CpuView {
        stack: s.stack.update(s.stack_pointer, s.program_counter as u16),
        stack_pointer: s.stack_pointer + 1,
        program_counter: addr as int,
        ..s
    }
}

/// A successful return: the topmost return address is popped into the
/// program counter. Meaningful only when the stack is not empty.
pub open spec fn ret_ok(s: CpuView) -> CpuView {
    CpuView {
        stack_pointer: s.stack_pointer - 1,
        program_counter: s.stack[s.stack_pointer - 1] as int,
        ..s
    }
}

/// One full fetch-decode-execute cycle: the state after the cycle and what
/// it decides about the run loop.
///
/// A fetch that would read past the end of memory stops the machine without
/// any mutation. Otherwise the program counter first advances by exactly 2,
/// independently of any adjustment by the executed instruction, and the
/// decoded instruction is then applied. An unknown opcode, a call on a full
/// stack, and a return on an empty stack stop the machine with the state as
/// the fetch advance left it.
pub open spec fn spec_step(s: CpuView) -> (CpuView, Flow) {
    if s.program_counter + 1 >= MEMORY_SIZE {
        (s, Flow::Fatal(Fault::AddressOutOfRange(s.program_counter as usize)))
    } else {
        let op = spec_fetch(s);
        let t = CpuView { program_counter: s.program_counter + 2, ..s };
        match spec_decode(op) {
            Instruction::Halt => (t, Flow::Halt),
            Instruction::ClearDisplay => (t, Flow::Next),
            Instruction::Return => {
                if t.stack_pointer == 0 {
                    (t, Flow::Fatal(Fault::StackUnderflow))
                } else {
                    (ret_ok(t), Flow::Next)
                }
            },
            Instruction::Jump { nnn } => (jmp_spec(t, nnn), Flow::Next),
            Instruction::Call { nnn } => {
                if t.stack_pointer >= STACK_CAPACITY {
                    (t, Flow::Fatal(Fault::StackOverflow))
                } else {
                    (call_ok(t, nnn), Flow::Next)
                }
            },
            Instruction::SkipIfEqual { x, kk } => (se_spec(t, x, kk), Flow::Next),
            Instruction::SkipIfNotEqual { x, kk } => (sne_spec(t, x, kk), Flow::Next),
            Instruction::SkipIfRegistersEqual { x, y } => (se_xy_spec(t, x, y), Flow::Next),
            Instruction::LoadImmediate { x, kk } => (ld_spec(t, x, kk), Flow::Next),
            Instruction::AddImmediate { x, kk } => (add_spec(t, x, kk), Flow::Next),
            Instruction::AddRegisters { x, y } => (add_xy_spec(t, x, y), Flow::Next),
            Instruction::Subtract { x, y } => (sub_spec(t, x, y), Flow::Next),
            Instruction::ReverseSubtract { x, y } => (sub_rev_spec(t, x, y), Flow::Next),
            Instruction::ShiftLeft { x } => (shl_spec(t, x), Flow::Next),
            Instruction::Unknown { opcode } => (t, Flow::Fatal(Fault::UnknownOpcode(opcode))),
        }
    }
}

/// Reverse subtract: the same borrow rule with the operands swapped, the
/// result still landing in register `x`.
pub open spec fn sub_rev_spec(s: CpuView, x: u8, y: u8) -> CpuView {
    let difference = s.registers[y as int] - s.registers[x as int];
    CpuView {
        registers: with_flag(
            s.registers,
            x,
            (difference % 0x100) as u8,
            if difference < 0 { 1u8 } else { 0u8 },
        ),
        ..s
    }
}

/// The machine after at most `n` cycles: iterates `spec_step` until a cycle
/// halts or faults, or the `n` cycles are spent (in which case the flow is
/// still `Flow::Next`).
pub open spec fn spec_run_n(s: CpuView, n: nat) -> (CpuView, Flow)
    decreases n,
{
    if n == 0 {
        (s, Flow::Next)
    } else {
        let (t, flow) = spec_step(s);
        if flow == Flow::Next {
            spec_run_n(t, (n - 1) as nat)
        } else {
            (t, flow)
        }
    }
}

/// Running `n` cycles without halting and then one more is the same as
/// stepping once from where the `n` cycles ended.
pub proof fn lemma_run_n_extend(s: CpuView, n: nat)
    requires
        spec_run_n(s, n).1 == Flow::Next,
    ensures
        spec_run_n(s, (n + 1) as nat) == spec_step(spec_run_n(s, n).0),
    decreases n,
{
    reveal_with_fuel(spec_run_n, 2);
    if n > 0 {
        let (t, flow) = spec_step(s);
        lemma_run_n_extend(t, (n - 1) as nat);
    }
}

} // verus!
