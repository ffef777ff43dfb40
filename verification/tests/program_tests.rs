use nes6502::cpu::Cpu;
use nes6502::error::CpuError;
use nes6502::nes::Nes;
use nes6502::status::StatusFlag;

/// Registers at the start of a raw program.
fn registers(a: u8, x: u8, y: u8, status: u8) -> Cpu {
    Cpu::new(a, x, y, 0x0600, status, 0xFD)
}

/// A machine with `program` at `$0600` and the given registers.
fn machine(cpu: Cpu, program: &[u8]) -> Nes {
    let mut nes = Nes::new(cpu);
    nes.load_instructions(program.to_vec()).unwrap();
    nes
}

/// The machine after `count` instructions of `program` ran.
fn after(cpu: Cpu, program: &[u8], count: usize) -> Nes {
    let mut nes = machine(cpu, program);
    for _ in 0..count {
        assert_eq!(nes.step(), Ok(false));
    }
    nes
}

fn flags(nes: &Nes) -> (bool, bool, bool, bool) {
    (
        nes.cpu.has_flag(&StatusFlag::Carry),
        nes.cpu.has_flag(&StatusFlag::Zero),
        nes.cpu.has_flag(&StatusFlag::Overflow),
        nes.cpu.has_flag(&StatusFlag::Negative),
    )
}

#[test]
fn immediate_load_and_store() {
    let mut nes = Nes::default();
    nes.load_instructions(vec![0xA9, 0x80, 0x85, 0x10, 0x00]).unwrap();
    assert_eq!(nes.run_with_reset_pc(true), Ok(true));
    assert_eq!(nes.cpu.accumulator, 0x80);
    assert_eq!(nes.mem_read_8(0x10), 0x80);
    assert!(nes.cpu.has_flag(&StatusFlag::Negative));
    assert!(!nes.cpu.has_flag(&StatusFlag::Zero));
}

#[test]
fn zero_page_load_chain() {
    let mut nes = Nes::default();
    nes.mem_write_8(0x80, 0xF1);
    nes.mem_write_8(0x81, 0xF2);
    nes.mem_write_8(0x82, 0xF3);
    nes.load_instructions(vec![
        0xA5, 0x80, 0x85, 0x20, 0xA6, 0x81, 0x86, 0x21, 0xA4, 0x82, 0x84, 0x22, 0x00,
    ])
    .unwrap();
    assert_eq!(nes.run_with_reset_pc(true), Ok(true));
    assert_eq!(nes.mem_read_8(0x20), 0xF1);
    assert_eq!(nes.mem_read_8(0x21), 0xF2);
    assert_eq!(nes.mem_read_8(0x22), 0xF3);
}

#[test]
fn adc_carry_and_overflow() {
    let mut nes = machine(registers(0x50, 0, 0, 0x24), &[0x69, 0x50, 0x00]);
    assert_eq!(nes.run(), Ok(true));
    assert_eq!(nes.cpu.accumulator, 0xA0);
    assert_eq!(flags(&nes), (false, false, true, true));
}

#[test]
fn sbc_borrow() {
    let mut nes = machine(registers(0x50, 0, 0, 0x25), &[0xE9, 0xB0, 0x00]);
    assert_eq!(nes.run(), Ok(true));
    assert_eq!(nes.cpu.accumulator, 0xA0);
    assert_eq!(flags(&nes), (false, false, true, true));
}

#[test]
fn branch_taken_skips_to_the_first_break() {
    let mut nes = Nes::default();
    nes.load_instructions(vec![0xA9, 0x00, 0xF0, 0x02, 0xA9, 0xFF, 0x00, 0xA9, 0x42, 0x00]).unwrap();
    assert_eq!(nes.run_with_reset_pc(true), Ok(true));
    assert_eq!(nes.cpu.accumulator, 0x00);
    // The break that ran is the one at $0606: it pushed $0608 and the status.
    assert_eq!(nes.memory[0x01FD], 0x06);
    assert_eq!(nes.memory[0x01FC], 0x08);
    assert_eq!(nes.memory[0x01FB], 0b0011_0110);
    assert_eq!(nes.cpu.stack_pointer, 0xFA);
    assert!(nes.cpu.has_flag(&StatusFlag::Interrupt));
    // and continued at the address in the break vector, which is blank here
    assert_eq!(nes.cpu.program_counter, 0x0000);
}

#[test]
fn jsr_rts_round_trip() {
    // caller at $0600, subroutine at $0609
    let mut nes = machine(registers(0, 0, 0, 0x24), &[0x20, 0x09, 0x06, 0xA9, 0x11, 0x00]);
    nes.mem_write_8(0x0609, 0xA9);
    nes.mem_write_8(0x060A, 0x22);
    nes.mem_write_8(0x060B, 0x60);

    assert_eq!(nes.step(), Ok(false));
    assert_eq!(nes.cpu.program_counter, 0x0609);
    assert_eq!(nes.cpu.stack_pointer, 0xFB);
    assert_eq!(nes.memory[0x01FD], 0x06);
    assert_eq!(nes.memory[0x01FC], 0x02);

    assert_eq!(nes.step(), Ok(false));
    assert_eq!(nes.cpu.accumulator, 0x22);

    assert_eq!(nes.step(), Ok(false));
    assert_eq!(nes.cpu.program_counter, 0x0603);
    assert_eq!(nes.cpu.stack_pointer, 0xFD);

    assert_eq!(nes.step(), Ok(false));
    assert_eq!(nes.cpu.accumulator, 0x11);
    assert_eq!(nes.cpu.stack_pointer, 0xFD);

    // the break then pushes three bytes
    assert_eq!(nes.step(), Ok(true));
    assert_eq!(nes.cpu.accumulator, 0x11);
    assert_eq!(nes.cpu.stack_pointer, 0xFA);
}

#[test]
fn jsr_into_blank_memory_halts_in_the_break_there() {
    let mut nes = Nes::default();
    nes.load_instructions(vec![0x20, 0x09, 0x06, 0xA9, 0x11, 0x00, 0xA9, 0x22, 0x60]).unwrap();
    assert_eq!(nes.run_with_reset_pc(true), Ok(true));
    assert_eq!(nes.cpu.accumulator, 0x00);
    // two bytes from the call, three from the break at $0609
    assert_eq!(nes.cpu.stack_pointer, 0xF8);
    assert_eq!(nes.memory[0x01FD], 0x06);
    assert_eq!(nes.memory[0x01FC], 0x02);
    assert_eq!(nes.memory[0x01FB], 0x06);
    assert_eq!(nes.memory[0x01FA], 0x0B);
}

#[test]
fn jsr_whose_subroutine_follows_the_caller_returns_after_the_call() {
    let mut nes = machine(
        registers(0, 0, 0, 0x24),
        &[0x20, 0x06, 0x06, 0xA9, 0x11, 0x00, 0xA9, 0x22, 0x60],
    );
    assert_eq!(nes.run(), Ok(true));
    assert_eq!(nes.cpu.accumulator, 0x11);
    assert_eq!(nes.cpu.stack_pointer, 0xFA);
    assert_eq!(nes.memory[0x01FD], 0x06);
    assert_eq!(nes.memory[0x01FC], 0x07);
}

#[test]
fn unsupported_opcode_is_reported_with_its_address() {
    let mut nes = machine(registers(1, 2, 3, 0x24), &[0xEA, 0x02]);
    assert_eq!(nes.step(), Ok(false));
    assert_eq!(nes.step(), Err(CpuError::UnsupportedOpcode { byte: 0x02, pc: 0x0601 }));
    // the fetch moved the program counter; nothing else changed
    assert_eq!(nes.cpu, Cpu::new(1, 2, 3, 0x0602, 0x24, 0xFD));
    assert_eq!(nes.memory[0x0600..0x0603], [0xEA, 0x02, 0x00]);
}

#[test]
fn unsupported_opcode_at_the_last_address() {
    let mut nes = Nes::new(Cpu::new(0, 0, 0, 0xFFFF, 0, 0xFD));
    nes.mem_write_8(0xFFFF, 0xFF);
    assert_eq!(nes.step(), Err(CpuError::UnsupportedOpcode { byte: 0xFF, pc: 0xFFFF }));
    assert_eq!(nes.cpu.program_counter, 0x0000);
}

#[test]
fn run_reports_an_unsupported_opcode_after_the_instructions_before_it() {
    let mut nes = Nes::default();
    nes.load_instructions(vec![0xA9, 0x07, 0xFF]).unwrap();
    assert_eq!(
        nes.run_with_reset_pc(true),
        Err(CpuError::UnsupportedOpcode { byte: 0xFF, pc: 0x0602 })
    );
    assert_eq!(nes.cpu.accumulator, 0x07);
    assert_eq!(nes.cpu.program_counter, 0x0603);
    assert_eq!(nes.cpu.stack_pointer, 0xFD);
}

#[test]
fn run_steps_stops_when_the_budget_is_used_up() {
    // INX; JMP $0600
    let mut nes = machine(registers(0, 0, 0, 0x24), &[0xE8, 0x4C, 0x00, 0x06]);
    assert_eq!(nes.run_steps(7), Ok(false));
    assert_eq!(nes.cpu.register_x, 4);
    assert_eq!(nes.cpu.program_counter, 0x0601);
    assert_eq!(nes.run_steps(0), Ok(false));
    assert_eq!(nes.cpu.register_x, 4);
}

#[test]
fn run_steps_with_no_budget_does_not_look_at_the_opcode() {
    let mut nes = machine(registers(0, 0, 0, 0x24), &[0xFF]);
    assert_eq!(nes.run_steps(0), Ok(false));
    assert_eq!(nes.cpu.program_counter, 0x0600);
}

#[test]
fn run_with_reset_starts_at_the_reset_vector() {
    let mut nes = Nes::new(Cpu::new(9, 9, 9, 0x1234, 0xFF, 0x00));
    let mut rom = vec![0u8; 0x8000];
    rom[0] = 0xA2; // LDX #$42
    rom[1] = 0x42;
    rom[0x7FFC] = 0x00; // reset vector: $8000
    rom[0x7FFD] = 0x80;
    rom[0x7FFE] = 0x34; // break vector: $1234
    rom[0x7FFF] = 0x12;
    nes.load_rom_from_bytes(&rom).unwrap();
    assert_eq!(nes.run_with_reset_pc(false), Ok(true));
    assert_eq!(nes.cpu.register_x, 0x42);
    assert_eq!(nes.cpu.accumulator, 0);
    assert_eq!(nes.cpu.register_y, 0);
    assert_eq!(nes.cpu.program_counter, 0x1234);
    // the break at $8002 pushed $8004
    assert_eq!(nes.memory[0x01FD], 0x80);
    assert_eq!(nes.memory[0x01FC], 0x04);
    assert_eq!(nes.memory[0x01FB], 0b0011_0100);
}

#[test]
fn program_counter_moves_by_the_instruction_length() {
    assert_eq!(after(registers(0, 0, 0, 0), &[0xEA], 1).cpu.program_counter, 0x0601);
    assert_eq!(after(registers(0, 0, 0, 0), &[0xA9, 0x01], 1).cpu.program_counter, 0x0602);
    assert_eq!(after(registers(0, 0, 0, 0), &[0xAD, 0x34, 0x12], 1).cpu.program_counter, 0x0603);
    assert_eq!(after(registers(0, 0, 0, 0), &[0x0A], 1).cpu.program_counter, 0x0601);
}

#[test]
fn program_counter_wraps_at_the_end_of_memory() {
    let mut nes = Nes::new(Cpu::new(0, 0, 0, 0xFFFF, 0, 0xFD));
    nes.mem_write_8(0xFFFF, 0xEA);
    assert_eq!(nes.step(), Ok(false));
    assert_eq!(nes.cpu.program_counter, 0x0000);
}

#[test]
fn nop_changes_the_program_counter_only() {
    let nes = after(registers(1, 2, 3, 0xC3), &[0xEA], 1);
    assert_eq!(nes.cpu, Cpu::new(1, 2, 3, 0x0601, 0xC3, 0xFD));
}

#[test]
fn jmp_absolute_goes_to_the_operand() {
    let nes = after(registers(0, 0, 0, 0), &[0x4C, 0x10, 0x06], 1);
    assert_eq!(nes.cpu.program_counter, 0x0610);
}

#[test]
fn jmp_indirect_reproduces_the_page_wrap() {
    let mut nes = machine(registers(0, 0, 0, 0), &[0x6C, 0xFF, 0x02]);
    nes.mem_write_8(0x02FF, 0x34);
    nes.mem_write_8(0x0200, 0x12);
    nes.mem_write_8(0x0300, 0x56);
    assert_eq!(nes.step(), Ok(false));
    assert_eq!(nes.cpu.program_counter, 0x1234);
}

#[test]
fn jmp_indirect_within_a_page() {
    let mut nes = machine(registers(0, 0, 0, 0), &[0x6C, 0x10, 0x02]);
    nes.mem_write_16(0x0210, 0xBEEF);
    assert_eq!(nes.step(), Ok(false));
    assert_eq!(nes.cpu.program_counter, 0xBEEF);
}

#[test]
fn jump_to_the_byte_after_the_opcode_counts_as_no_jump() {
    // JMP $0601 leaves the program counter where it was after the fetch, so
    // it is moved past the operand
    let nes = after(registers(0, 0, 0, 0), &[0x4C, 0x01, 0x06], 1);
    assert_eq!(nes.cpu.program_counter, 0x0603);
}

#[test]
fn branches_test_their_flag() {
    // (opcode, flag mask, taken when the flag is set)
    let cases = [
        (0x10u8, 0x80u8, false),
        (0x30, 0x80, true),
        (0x50, 0x40, false),
        (0x70, 0x40, true),
        (0x90, 0x01, false),
        (0xB0, 0x01, true),
        (0xD0, 0x02, false),
        (0xF0, 0x02, true),
    ];
    for (opcode, mask, taken_when_set) in cases {
        let set = after(registers(0, 0, 0, mask), &[opcode, 0x04], 1);
        let clear = after(registers(0, 0, 0, !mask), &[opcode, 0x04], 1);
        let (taken, not_taken) = if taken_when_set { (set, clear) } else { (clear, set) };
        assert_eq!(taken.cpu.program_counter, 0x0606, "opcode {:#04x}", opcode);
        assert_eq!(not_taken.cpu.program_counter, 0x0602, "opcode {:#04x}", opcode);
        assert_eq!(taken.cpu.status, if taken_when_set { mask } else { !mask });
    }
}

#[test]
fn branch_offsets_are_signed() {
    // BEQ -4 from $0602 goes to $05FE
    let back = after(registers(0, 0, 0, 0x02), &[0xF0, 0xFC], 1);
    assert_eq!(back.cpu.program_counter, 0x05FE);
    // BEQ -128
    let far_back = after(registers(0, 0, 0, 0x02), &[0xF0, 0x80], 1);
    assert_eq!(far_back.cpu.program_counter, 0x0582);
    // BEQ +127
    let far = after(registers(0, 0, 0, 0x02), &[0xF0, 0x7F], 1);
    assert_eq!(far.cpu.program_counter, 0x0681);
}

#[test]
fn branch_target_wraps_at_sixteen_bits() {
    let mut nes = Nes::new(Cpu::new(0, 0, 0, 0xFFF0, 0x02, 0xFD));
    nes.mem_write_8(0xFFF0, 0xF0);
    nes.mem_write_8(0xFFF1, 0x20);
    assert_eq!(nes.step(), Ok(false));
    assert_eq!(nes.cpu.program_counter, 0x0012);
}

#[test]
fn countdown_loop_branches_backwards() {
    // LDX #3; DEX; BNE -3; BRK
    let mut nes = machine(registers(0, 0, 0, 0x24), &[0xA2, 0x03, 0xCA, 0xD0, 0xFD, 0x00]);
    assert_eq!(nes.run(), Ok(true));
    assert_eq!(nes.cpu.register_x, 0);
    assert!(nes.cpu.has_flag(&StatusFlag::Zero));
    assert_eq!(nes.memory[0x01FC], 0x07);
}

#[test]
fn brk_pushes_return_address_and_status_and_takes_the_vector() {
    let mut nes = machine(registers(0, 0, 0, 0b1100_0001), &[0x00]);
    nes.mem_write_16(0xFFFE, 0x9000);
    assert_eq!(nes.step(), Ok(true));
    assert_eq!(nes.memory[0x01FD], 0x06);
    assert_eq!(nes.memory[0x01FC], 0x02);
    assert_eq!(nes.memory[0x01FB], 0b1111_0001);
    assert_eq!(nes.cpu.stack_pointer, 0xFA);
    assert_eq!(nes.cpu.status, 0b1100_0101);
    assert_eq!(nes.cpu.program_counter, 0x9000);
}

#[test]
fn rti_pulls_status_and_address() {
    let mut nes = machine(Cpu::new(0, 0, 0, 0x0600, 0x00, 0xFA), &[0x40]);
    nes.mem_write_8(0x01FB, 0b1101_0011);
    nes.mem_write_8(0x01FC, 0x34);
    nes.mem_write_8(0x01FD, 0x12);
    assert_eq!(nes.step(), Ok(false));
    assert_eq!(nes.cpu.status, 0b1110_0011);
    assert_eq!(nes.cpu.program_counter, 0x1234);
    assert_eq!(nes.cpu.stack_pointer, 0xFD);
}

#[test]
fn rts_continues_after_the_pulled_address() {
    let mut nes = machine(Cpu::new(0, 0, 0, 0x0600, 0x00, 0xFB), &[0x60]);
    nes.mem_write_8(0x01FC, 0xFF);
    nes.mem_write_8(0x01FD, 0x12);
    assert_eq!(nes.step(), Ok(false));
    assert_eq!(nes.cpu.program_counter, 0x1300);
    assert_eq!(nes.cpu.stack_pointer, 0xFD);
}

#[test]
fn running_in_slices_is_running_at_once() {
    // LDX #0; INX; ADC #3; JMP $0602
    let program = [0xA2, 0x00, 0xE8, 0x69, 0x03, 0x4C, 0x02, 0x06];
    let mut whole = machine(registers(0, 0, 0, 0x24), &program);
    let mut sliced = machine(registers(0, 0, 0, 0x24), &program);
    assert_eq!(whole.run_steps(100), Ok(false));
    assert_eq!(sliced.run_steps(37), Ok(false));
    assert_eq!(sliced.run_steps(63), Ok(false));
    assert_eq!(whole.cpu, sliced.cpu);
    assert_eq!(whole.memory, sliced.memory);
    assert_eq!(whole.cpu.register_x, 33);
    assert_eq!(whole.cpu.accumulator, 99);
}

#[test]
fn a_budget_that_ends_on_the_break_reports_the_halt() {
    let mut nes = machine(registers(0, 0, 0, 0x24), &[0xEA, 0xEA, 0x00]);
    assert_eq!(nes.run_steps(2), Ok(false));
    assert_eq!(nes.cpu.program_counter, 0x0602);
    assert_eq!(nes.run_steps(1), Ok(true));
    assert_eq!(nes.cpu.stack_pointer, 0xFA);
}
