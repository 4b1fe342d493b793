//! The executable machine and its fetch-decode-execute cycle.
//!
//! Every operation is specified against the abstract state in
//! `crate::state`: a method's `ensures` says that the machine's view after
//! the call is exactly the transition the model prescribes.

use vstd::prelude::*;

use crate::decode::{decode, Instruction};
use crate::fault::{flow_of, Fault, Flow, Outcome};
use crate::state::{
    add_spec, add_xy_spec, call_ok, jmp_spec, ld_spec, lemma_run_n_extend, multiply_xy_spec,
    ret_ok, se_spec, se_xy_spec, shl_spec, sne_spec, spec_run_n, spec_step, sub_rev_spec,
    sub_spec, CpuView,
};

verus! {

/// The machine: 16 eight-bit registers (the last reserved as the flag VF),
/// a program counter, a sixteen-entry call stack with its pointer, and 4096
/// bytes of memory. The fields are public so that a host can load registers
/// before a run and read registers and memory back after termination.
pub struct CPU {
    pub registers: [u8; 16],
    pub program_counter: usize,
    pub stack: [u16; 16],
    pub stack_pointer: usize,
    pub memory: [u8; 4096],
}

impl View for CPU {
    type V = CpuView;

    open spec fn view(&self) -> CpuView {
        CpuView {
            registers: self.registers@,
            program_counter: self.program_counter as int,
            stack: self.stack@,
            stack_pointer: self.stack_pointer as int,
            memory: self.memory@,
        }
    }
}

impl CPU {
    /// A machine with zeroed registers, stack, and memory, ready for a
    /// program image to be loaded.
    pub fn new() -> (machine: CPU)
        ensures
            machine@.wf(),
            machine@.program_counter == 0,
            machine@.stack_pointer == 0,
            forall|i: int| 0 <= i < 16 ==> machine@.registers[i] == 0,
            forall|i: int| 0 <= i < 16 ==> machine@.stack[i] == 0,
            forall|i: int| 0 <= i < 4096 ==> machine@.memory[i] == 0,
    {
        CPU {
            registers: [0; 16],
            program_counter: 0,
            stack: [0; 16],
            stack_pointer: 0,
            memory: [0; 4096],
        }
    }

    /// Load immediate (0x6xkk): register `x` becomes `kk`.
    pub fn ld(&mut self, x: u8, kk: u8)
        requires
            x < 16,
        ensures
            final(self)@ == ld_spec(old(self)@, x, kk),
    {
        self.registers[x as usize] = kk;
    }

    /// Skip-if-equal (0x3xkk): the program counter advances by an extra 2
    /// exactly when register `x` equals `kk`.
    pub fn se(&mut self, x: u8, kk: u8)
        requires
            x < 16,
            old(self).program_counter + 2 <= usize::MAX,
        ensures
            final(self)@ == se_spec(old(self)@, x, kk),
    {
        if self.registers[x as usize] == kk {
            self.program_counter = self.program_counter + 2;
        }
    }

    /// Skip-if-not-equal (0x4xkk): the program counter advances by an extra
    /// 2 exactly when register `x` differs from `kk`.
    pub fn sne(&mut self, x: u8, kk: u8)
        requires
            x < 16,
            old(self).program_counter + 2 <= usize::MAX,
        ensures
            final(self)@ == sne_spec(old(self)@, x, kk),
    {
        if self.registers[x as usize] != kk {
            self.program_counter = self.program_counter + 2;
        }
    }

    /// Skip-if-registers-equal (0x5xy0): the program counter advances by an
    /// extra 2 exactly when registers `x` and `y` hold the same value.
    pub fn se_xy(&mut self, x: u8, y: u8)
        requires
            x < 16,
            y < 16,
            old(self).program_counter + 2 <= usize::MAX,
        ensures
            final(self)@ == se_xy_spec(old(self)@, x, y),
    {
        if self.registers[x as usize] == self.registers[y as usize] {
            self.program_counter = self.program_counter + 2;
        }
    }

    /// Add immediate (0x7xkk): register `x` becomes `x + kk` wrapped to 8
    /// bits. The flag register VF is deliberately not touched.
    pub fn add(&mut self, x: u8, kk: u8)
        requires
            x < 16,
        ensures
            final(self)@ == add_spec(old(self)@, x, kk),
    {
        let sum: u16 = self.registers[x as usize] as u16 + kk as u16;
        self.registers[x as usize] = (sum % 0x100) as u8;
    }

    /// Add registers (0x8xy4): register `x` becomes the 8-bit wraparound of
    /// the mathematical sum, and VF becomes 1 exactly when that sum exceeds
    /// 255. The flag is computed from the pre-truncation sum and written as
    /// the final step.
    pub fn add_xy(&mut self, x: u8, y: u8)
        requires
            x < 16,
            y < 16,
        ensures
            final(self)@ == add_xy_spec(old(self)@, x, y),
    {
        let sum: u16 = self.registers[x as usize] as u16 + self.registers[y as usize] as u16;
        self.registers[x as usize] = (sum % 0x100) as u8;
        self.registers[15] = if sum > 0xFF { 1 } else { 0 };
    }

    /// Subtract (0x8xy5): register `x` becomes `x - y` wrapped to 8 bits,
    /// and VF becomes 1 exactly when the subtraction borrows (`x < y`
    /// before the wrap).
    pub fn sub(&mut self, x: u8, y: u8)
        requires
            x < 16,
            y < 16,
        ensures
            final(self)@ == sub_spec(old(self)@, x, y),
    {
        let minuend = self.registers[x as usize];
        let subtrahend = self.registers[y as usize];
        let value = if minuend >= subtrahend {
            minuend - subtrahend
        } else {
            ((minuend as u16 + 0x100) - subtrahend as u16) as u8
        };
        self.registers[x as usize] = value;
        self.registers[15] = if minuend < subtrahend { 1 } else { 0 };
    }

    /// Reverse subtract (0x8xy7): register `x` becomes `y - x` wrapped to 8
    /// bits, with the same borrow rule on VF, operands swapped.
    pub fn subn(&mut self, x: u8, y: u8)
        requires
            x < 16,
            y < 16,
        ensures
            final(self)@ == sub_rev_spec(old(self)@, x, y),
    {
        let minuend = self.registers[y as usize];
        let subtrahend = self.registers[x as usize];
        let value = if minuend >= subtrahend {
            minuend - subtrahend
        } else {
            ((minuend as u16 + 0x100) - subtrahend as u16) as u8
        };
        self.registers[x as usize] = value;
        self.registers[15] = if minuend < subtrahend { 1 } else { 0 };
    }

    /// Shift left (0x8xyE): register `x` doubles, truncated to 8 bits, and
    /// VF becomes the most-significant bit the register held before the
    /// shift, written as the final step.
    pub fn shl(&mut self, x: u8)
        requires
            x < 16,
        ensures
            final(self)@ == shl_spec(old(self)@, x),
    {
        let before = self.registers[x as usize];
        let doubled: u16 = before as u16 * 2;
        self.registers[x as usize] = (doubled % 0x100) as u8;
        self.registers[15] = if before >= 0x80 { 1 } else { 0 };
    }

    /// Multiply registers: register `x` becomes the 8-bit wraparound of the
    /// mathematical product, and VF becomes 1 exactly when that product
    /// exceeds 255. No opcode of the base table dispatches here; the
    /// operation extends the same pattern as the adds.
    pub fn multiply_xy(&mut self, x: u8, y: u8)
        requires
            x < 16,
            y < 16,
        ensures
            final(self)@ == multiply_xy_spec(old(self)@, x, y),
    {
        let a = self.registers[x as usize];
        let b = self.registers[y as usize];
        proof {
            assert(a as int * b as int <= 255 * 255) by (nonlinear_arith)
                requires
                    a <= 255,
                    b <= 255,
            ;
        }
        let product: u16 = a as u16 * b as u16;
        self.registers[x as usize] = (product % 0x100) as u8;
        self.registers[15] = if product > 0xFF { 1 } else { 0 };
    }

    /// Jump (0x1nnn): the program counter becomes `addr`.
    pub fn jmp(&mut self, addr: u16)
        ensures
            final(self)@ == jmp_spec(old(self)@, addr),
    {
        self.program_counter = addr as usize;
    }

    /// Call (0x2nnn): pushes the current program counter — already advanced
    /// past the call instruction — as the return address and jumps to
    /// `addr`. Fails with `Fault::StackOverflow`, mutating nothing, exactly
    /// when the stack is full.
    pub fn call(&mut self, addr: u16) -> (r: Result<(), Fault>)
        requires
            old(self).program_counter <= u16::MAX,
        ensures
            old(self).stack_pointer < 16 ==> r is Ok && final(self)@ == call_ok(old(self)@, addr),
            old(self).stack_pointer >= 16 ==> r == Err::<(), Fault>(Fault::StackOverflow)
                && final(self)@ == old(self)@,
    {
        if self.stack_pointer >= 16 {
            return Err(Fault::StackOverflow);
        }
        self.stack[self.stack_pointer] = self.program_counter as u16;
        self.stack_pointer = self.stack_pointer + 1;
        self.program_counter = addr as usize;
        Ok(())
    }

    /// Return (0x00EE): pops the topmost return address into the program
    /// counter. Fails with `Fault::StackUnderflow`, mutating nothing,
    /// exactly when the stack is empty.
    pub fn ret(&mut self) -> (r: Result<(), Fault>)
        requires
            old(self).stack_pointer <= 16,
        ensures
            old(self).stack_pointer == 0 ==> r == Err::<(), Fault>(Fault::StackUnderflow)
                && final(self)@ == old(self)@,
            old(self).stack_pointer > 0 ==> r is Ok && final(self)@ == ret_ok(old(self)@),
    {
        if self.stack_pointer == 0 {
            return Err(Fault::StackUnderflow);
        }
        self.stack_pointer = self.stack_pointer - 1;
        self.program_counter = self.stack[self.stack_pointer] as usize;
        Ok(())
    }

    /// Copies a program image into memory starting at `base`, leaving every
    /// other byte and the rest of the machine untouched. Meant to run before
    /// the first cycle.
    pub fn load_program(&mut self, program: &[u8], base: usize)
        requires
            base + program@.len() <= 4096,
        ensures
            forall|i: int|
                0 <= i < program@.len() ==> final(self)@.memory[base + i] == program@[i],
            forall|i: int|
                0 <= i < 4096 && !(base <= i < base + program@.len())
                    ==> final(self)@.memory[i] == old(self)@.memory[i],
            final(self)@.registers == old(self)@.registers,
            final(self)@.program_counter == old(self)@.program_counter,
            final(self)@.stack == old(self)@.stack,
            final(self)@.stack_pointer == old(self)@.stack_pointer,
    {
        let mut i: usize = 0;
        while i < program.len()
            invariant
                base + program@.len() <= 4096,
                i <= program@.len(),
                forall|j: int| 0 <= j < i ==> self.memory@[base + j] == program@[j],
                forall|j: int|
                    0 <= j < 4096 && !(base <= j < base + i)
                        ==> self.memory@[j] == old(self).memory@[j],
                self.registers == old(self).registers,
                self.program_counter == old(self).program_counter,
                self.stack == old(self).stack,
                self.stack_pointer == old(self).stack_pointer,
            decreases program@.len() - i,
        {
            self.memory[base + i] = program[i];
            i = i + 1;
        }
    }

    /// One atomic fetch-decode-execute cycle, exactly the model's
    /// `spec_step`: fetch the two-byte opcode at the program counter (a
    /// fetch past the end of memory is a fatal addressing error), advance
    /// the program counter by 2, then apply the decoded instruction.
    pub fn step(&mut self) -> (flow: Flow)
        requires
            old(self)@.wf(),
        ensures
            final(self)@.wf(),
            final(self)@ == spec_step(old(self)@).0,
            flow == spec_step(old(self)@).1,
    {
        if self.program_counter + 1 >= 4096 {
            return Flow::Fatal(Fault::AddressOutOfRange(self.program_counter));
        }
        let high = self.memory[self.program_counter] as u16;
        let low = self.memory[self.program_counter + 1] as u16;
        let opcode: u16 = high * 0x100 + low;
        self.program_counter = self.program_counter + 2;
        match decode(opcode) {
            Instruction::Halt => Flow::Halt,
            Instruction::ClearDisplay => Flow::Next,
            Instruction::Return => match self.ret() {
                Ok(()) => Flow::Next,
                Err(fault) => Flow::Fatal(fault),
            },
            Instruction::Jump { nnn } => {
                self.jmp(nnn);
                Flow::Next
            },
            Instruction::Call { nnn } => match self.call(nnn) {
                Ok(()) => Flow::Next,
                Err(fault) => Flow::Fatal(fault),
            },
            Instruction::SkipIfEqual { x, kk } => {
                self.se(x, kk);
                Flow::Next
            },
            Instruction::SkipIfNotEqual { x, kk } => {
                self.sne(x, kk);
                Flow::Next
            },
            Instruction::SkipIfRegistersEqual { x, y } => {
                self.se_xy(x, y);
                Flow::Next
            },
            Instruction::LoadImmediate { x, kk } => {
                self.ld(x, kk);
                Flow::Next
            },
            Instruction::AddImmediate { x, kk } => {
                self.add(x, kk);
                Flow::Next
            },
            Instruction::AddRegisters { x, y } => {
                self.add_xy(x, y);
                Flow::Next
            },
            Instruction::Subtract { x, y } => {
                self.sub(x, y);
                Flow::Next
            },
            Instruction::ReverseSubtract { x, y } => {
                self.subn(x, y);
                Flow::Next
            },
            Instruction::ShiftLeft { x } => {
                self.shl(x);
                Flow::Next
            },
            Instruction::Unknown { opcode } => Flow::Fatal(Fault::UnknownOpcode(opcode)),
        }
    }

    /// Drives cycles until one halts or faults, or until `max_cycles`
    /// cycles have run. A program may loop forever, so the loop carries a
    /// budget; `None` means the budget ran out with the machine still
    /// running. The result and the final machine are exactly what iterating
    /// the model's `spec_step` from the starting state gives.
    pub fn run(&mut self, max_cycles: u64) -> (outcome: Option<Outcome>)
        requires
            old(self)@.wf(),
        ensures
            final(self)@.wf(),
            match outcome {
                Some(terminal) => exists|n: nat|
                    n <= max_cycles && #[trigger] spec_run_n(old(self)@, n) == (
                        final(self)@,
                        flow_of(terminal),
                    ),
                None => spec_run_n(old(self)@, max_cycles as nat) == (final(self)@, Flow::Next),
            },
    {
        let ghost start = self@;
        let mut cycles: u64 = 0;
        while cycles < max_cycles
            invariant
                self@.wf(),
                cycles <= max_cycles,
                spec_run_n(start, cycles as nat) == (self@, Flow::Next),
                start == old(self)@,
            decreases max_cycles - cycles,
        {
            proof {
                lemma_run_n_extend(start, cycles as nat);
            }
            let flow = self.step();
            cycles = cycles + 1;
            match flow {
                Flow::Next => {},
                Flow::Halt => {
                    return Some(Outcome::Halted);
                },
                Flow::Fatal(fault) => {
                    return Some(Outcome::Faulted(fault));
                },
            }
        }
        None
    }
}

} // verus!
