//! Laws that relate several operations of the machine, stated over the
//! abstract model and proved once and for all.

use vstd::prelude::*;

use crate::decode::{op_class, op_kk, op_x, spec_decode, Instruction};
use crate::fault::{Fault, Flow};
use crate::state::{call_ok, ret_ok, spec_fetch, spec_step, CpuView};

verus! {

/// Law: a call followed by a return restores the program counter and the
/// stack pointer, and leaves registers and memory untouched, for every
/// well-formed state with room on the stack.
pub proof fn lemma_call_ret_round_trip(s: CpuView, addr: u16)
    requires
        s.wf(),
        s.stack_pointer < 16,
    ensures
        ret_ok(call_ok(s, addr)).program_counter == s.program_counter,
        ret_ok(call_ok(s, addr)).stack_pointer == s.stack_pointer,
        ret_ok(call_ok(s, addr)).registers == s.registers,
        ret_ok(call_ok(s, addr)).memory == s.memory,
{
}

/// Law: a skip-if-equal cycle (class 0x3) never faults, and moves the
/// program counter a net 4 past the instruction's start when register `x`
/// equals `kk`, a net 2 otherwise — the extra 2 on top of the fetch advance
/// exactly when the comparison holds.
pub proof fn lemma_skip_if_equal_pc(s: CpuView)
    requires
        s.wf(),
        s.program_counter + 1 < 4096,
        op_class(spec_fetch(s)) == 0x3,
    ensures
        spec_step(s).1 == Flow::Next,
        s.registers[op_x(spec_fetch(s)) as int] == op_kk(spec_fetch(s))
            ==> spec_step(s).0.program_counter == s.program_counter + 4,
        s.registers[op_x(spec_fetch(s)) as int] != op_kk(spec_fetch(s))
            ==> spec_step(s).0.program_counter == s.program_counter + 2,
{
}

/// Law: a cycle whose fetched opcode matches no defined operation stops the
/// machine with `Fault::UnknownOpcode` carrying that opcode, and mutates
/// nothing beyond the fetch advance of the program counter.
pub proof fn lemma_unknown_opcode_stops_clean(s: CpuView)
    requires
        s.wf(),
        s.program_counter + 1 < 4096,
        spec_decode(spec_fetch(s)) is Unknown,
    ensures
        spec_step(s).1 == Flow::Fatal(Fault::UnknownOpcode(spec_fetch(s))),
        spec_step(s).0.registers == s.registers,
        spec_step(s).0.stack == s.stack,
        spec_step(s).0.stack_pointer == s.stack_pointer,
        spec_step(s).0.memory == s.memory,
        spec_step(s).0.program_counter == s.program_counter + 2,
{
}

} // verus!
