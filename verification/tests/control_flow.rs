use chip8_core::cpu::CPU;
use chip8_core::fault::{Fault, Flow, Outcome};

#[test]
fn call_return_round_trip() {
    let mut cpu = CPU::new();
    // A call to 0x100 at address 0x000; a return at 0x100.
    cpu.load_program(&[0x21, 0x00], 0x000);
    cpu.load_program(&[0x00, 0xEE], 0x100);
    assert_eq!(cpu.step(), Flow::Next);
    assert_eq!(cpu.program_counter, 0x100);
    assert_eq!(cpu.stack_pointer, 1);
    assert_eq!(cpu.stack[0], 0x002);
    assert_eq!(cpu.step(), Flow::Next);
    assert_eq!(cpu.program_counter, 0x002);
    assert_eq!(cpu.stack_pointer, 0);
}

#[test]
fn stack_exhaustion_on_seventeenth_call() {
    let mut cpu = CPU::new();
    // The instruction at 0x000 calls 0x000 again: every cycle nests one
    // deeper. Sixteen calls fill the stack; the seventeenth overflows.
    cpu.load_program(&[0x20, 0x00], 0x000);
    for _ in 0..16 {
        assert_eq!(cpu.step(), Flow::Next);
    }
    assert_eq!(cpu.stack_pointer, 16);
    assert_eq!(cpu.step(), Flow::Fatal(Fault::StackOverflow));
    assert_eq!(cpu.stack_pointer, 16);
}

#[test]
fn return_on_empty_stack_underflows() {
    let mut cpu = CPU::new();
    cpu.load_program(&[0x00, 0xEE], 0x000);
    assert_eq!(cpu.step(), Flow::Fatal(Fault::StackUnderflow));
}

#[test]
fn skip_if_equal_taken() {
    let mut cpu = CPU::new();
    cpu.registers[2] = 0x42;
    cpu.load_program(&[0x32, 0x42], 0x000);
    assert_eq!(cpu.step(), Flow::Next);
    // Net +4 from the instruction's start: fetch advance plus the skip.
    assert_eq!(cpu.program_counter, 4);
}

#[test]
fn skip_if_equal_not_taken() {
    let mut cpu = CPU::new();
    cpu.registers[2] = 0x41;
    cpu.load_program(&[0x32, 0x42], 0x000);
    assert_eq!(cpu.step(), Flow::Next);
    assert_eq!(cpu.program_counter, 2);
}

#[test]
fn skip_if_not_equal() {
    let mut cpu = CPU::new();
    cpu.registers[2] = 0x41;
    // The first skip jumps over the halt; the second compares equal values
    // and advances only by the fetch.
    cpu.load_program(&[0x42, 0x42, 0x00, 0x00, 0x42, 0x41], 0x000);
    assert_eq!(cpu.step(), Flow::Next);
    assert_eq!(cpu.program_counter, 4);
    assert_eq!(cpu.step(), Flow::Next);
    assert_eq!(cpu.program_counter, 6);
}

#[test]
fn skip_if_registers_equal() {
    let mut cpu = CPU::new();
    cpu.registers[1] = 9;
    cpu.registers[2] = 9;
    cpu.load_program(&[0x51, 0x20], 0x000);
    assert_eq!(cpu.step(), Flow::Next);
    assert_eq!(cpu.program_counter, 4);
}

#[test]
fn skip_if_registers_equal_not_taken() {
    let mut cpu = CPU::new();
    cpu.registers[1] = 9;
    cpu.registers[2] = 8;
    cpu.load_program(&[0x51, 0x20], 0x000);
    assert_eq!(cpu.step(), Flow::Next);
    assert_eq!(cpu.program_counter, 2);
}

#[test]
fn unknown_opcode_stops_clean() {
    let mut cpu = CPU::new();
    cpu.registers[0] = 11;
    cpu.registers[1] = 22;
    cpu.load_program(&[0xFF, 0xFF], 0x000);
    assert_eq!(cpu.step(), Flow::Fatal(Fault::UnknownOpcode(0xFFFF)));
    // No state mutation from the rejected instruction, only the fetch advance.
    assert_eq!(cpu.registers[0], 11);
    assert_eq!(cpu.registers[1], 22);
    assert_eq!(cpu.stack_pointer, 0);
    assert_eq!(cpu.program_counter, 2);
}

#[test]
fn run_reports_unknown_opcode() {
    let mut cpu = CPU::new();
    cpu.load_program(&[0xFF, 0xFF], 0x000);
    assert_eq!(cpu.run(10), Some(Outcome::Faulted(Fault::UnknownOpcode(0xFFFF))));
}

#[test]
fn halt_opcode_halts() {
    let mut cpu = CPU::new();
    assert_eq!(cpu.step(), Flow::Halt);
    assert_eq!(cpu.program_counter, 2);
    let mut fresh = CPU::new();
    assert_eq!(fresh.run(10), Some(Outcome::Halted));
}

#[test]
fn clear_display_touches_no_core_state() {
    let mut cpu = CPU::new();
    cpu.registers[4] = 77;
    cpu.load_program(&[0x00, 0xE0], 0x000);
    assert_eq!(cpu.step(), Flow::Next);
    assert_eq!(cpu.program_counter, 2);
    assert_eq!(cpu.registers[4], 77);
    assert_eq!(cpu.stack_pointer, 0);
}

#[test]
fn jump_sets_program_counter() {
    let mut cpu = CPU::new();
    cpu.load_program(&[0x1A, 0xBC], 0x000);
    assert_eq!(cpu.step(), Flow::Next);
    assert_eq!(cpu.program_counter, 0xABC);
}

#[test]
fn fetch_at_last_byte_is_out_of_range() {
    let mut cpu = CPU::new();
    cpu.load_program(&[0x1F, 0xFF], 0x000);
    assert_eq!(cpu.step(), Flow::Next);
    assert_eq!(cpu.program_counter, 0xFFF);
    assert_eq!(cpu.step(), Flow::Fatal(Fault::AddressOutOfRange(0xFFF)));
    assert_eq!(cpu.program_counter, 0xFFF);
}

#[test]
fn run_budget_exhausted_returns_none() {
    let mut cpu = CPU::new();
    // A jump to its own address: the program loops forever.
    cpu.load_program(&[0x10, 0x00], 0x000);
    assert_eq!(cpu.run(5), None);
    assert_eq!(cpu.program_counter, 0);
}

#[test]
fn demo_program_subtract_twice_per_call() {
    // Two calls to a routine that subtracts V1 from V0 twice, then one
    // register add and a halt: 30 - 5*4 + 5 = 15.
    let mut cpu = CPU::new();
    cpu.registers[0] = 30;
    cpu.registers[1] = 5;
    cpu.load_program(&[0x80, 0x15, 0x80, 0x15, 0x00, 0xEE], 0x100);
    cpu.load_program(&[0x21, 0x00, 0x21, 0x00, 0x80, 0x14, 0x00, 0x00], 0x000);
    assert_eq!(cpu.run(100), Some(Outcome::Halted));
    assert_eq!(cpu.registers[0], 15);
    assert_eq!(cpu.stack_pointer, 0);
}

#[test]
fn load_program_copies_only_target_range() {
    let mut cpu = CPU::new();
    cpu.load_program(&[1, 2, 3], 0x200);
    assert_eq!(cpu.memory[0x1FF], 0);
    assert_eq!(cpu.memory[0x200], 1);
    assert_eq!(cpu.memory[0x201], 2);
    assert_eq!(cpu.memory[0x202], 3);
    assert_eq!(cpu.memory[0x203], 0);
}

#[test]
fn direct_register_operations() {
    let mut cpu = CPU::new();
    cpu.ld(4, 200);
    assert_eq!(cpu.registers[4], 200);
    cpu.add(4, 100);
    assert_eq!(cpu.registers[4], 44);
    cpu.se(4, 44);
    assert_eq!(cpu.program_counter, 2);
    cpu.sne(4, 44);
    assert_eq!(cpu.program_counter, 2);
    cpu.sne(4, 45);
    assert_eq!(cpu.program_counter, 4);
    cpu.jmp(0x300);
    assert_eq!(cpu.program_counter, 0x300);
}

#[test]
fn direct_call_and_ret_results() {
    let mut cpu = CPU::new();
    assert_eq!(cpu.ret(), Err(Fault::StackUnderflow));
    cpu.program_counter = 0x123;
    assert_eq!(cpu.call(0x400), Ok(()));
    assert_eq!(cpu.program_counter, 0x400);
    assert_eq!(cpu.stack[0], 0x123);
    assert_eq!(cpu.ret(), Ok(()));
    assert_eq!(cpu.program_counter, 0x123);
    cpu.stack_pointer = 16;
    assert_eq!(cpu.call(0x400), Err(Fault::StackOverflow));
}
