use nes6502::cpu::Cpu;
use nes6502::nes::Nes;
use nes6502::status::StatusFlag;

const C: u8 = 0x01;
const Z: u8 = 0x02;
const I: u8 = 0x04;
const D: u8 = 0x08;
const V: u8 = 0x40;
const N: u8 = 0x80;

/// The machine after the first instruction of `program` ran from `$0600`.
fn one(a: u8, x: u8, y: u8, status: u8, program: &[u8], memory: &[(u16, u8)]) -> Nes {
    let mut nes = Nes::new(Cpu::new(a, x, y, 0x0600, status, 0xFD));
    nes.load_instructions(program.to_vec()).unwrap();
    for &(address, value) in memory {
        nes.mem_write_8(address, value);
    }
    assert_eq!(nes.step(), Ok(false));
    nes
}

#[test]
fn loads_set_register_and_flags() {
    let lda = one(0, 0, 0, 0, &[0xA9, 0x00], &[]);
    assert_eq!((lda.cpu.accumulator, lda.cpu.status), (0x00, Z));
    let ldx = one(0, 0, 0, Z, &[0xA2, 0x80], &[]);
    assert_eq!((ldx.cpu.register_x, ldx.cpu.status), (0x80, N));
    let ldy = one(0, 0, 0, N | C, &[0xA0, 0x7F], &[]);
    assert_eq!((ldy.cpu.register_y, ldy.cpu.status), (0x7F, C));
}

#[test]
fn loads_through_every_addressing_mode() {
    assert_eq!(one(0, 0, 0, 0, &[0xA5, 0x10], &[(0x0010, 0x11)]).cpu.accumulator, 0x11);
    assert_eq!(one(0, 2, 0, 0, &[0xB5, 0x10], &[(0x0012, 0x12)]).cpu.accumulator, 0x12);
    assert_eq!(one(0, 0, 3, 0, &[0xB6, 0x10], &[(0x0013, 0x13)]).cpu.register_x, 0x13);
    assert_eq!(one(0, 0, 0, 0, &[0xAD, 0x34, 0x12], &[(0x1234, 0x14)]).cpu.accumulator, 0x14);
    assert_eq!(one(0, 4, 0, 0, &[0xBD, 0x34, 0x12], &[(0x1238, 0x15)]).cpu.accumulator, 0x15);
    assert_eq!(one(0, 0, 5, 0, &[0xB9, 0x34, 0x12], &[(0x1239, 0x16)]).cpu.accumulator, 0x16);
    assert_eq!(
        one(0, 1, 0, 0, &[0xA1, 0x20], &[(0x0021, 0x00), (0x0022, 0x30), (0x3000, 0x17)])
            .cpu
            .accumulator,
        0x17
    );
    assert_eq!(
        one(0, 0, 1, 0, &[0xB1, 0x20], &[(0x0020, 0xFF), (0x0021, 0x30), (0x3100, 0x18)])
            .cpu
            .accumulator,
        0x18
    );
}

#[test]
fn stores_write_the_register_and_keep_the_flags() {
    let sta = one(0x77, 5, 0, N | Z, &[0x9D, 0x00, 0x02], &[]);
    assert_eq!((sta.memory[0x0205], sta.cpu.status), (0x77, N | Z));
    let stx = one(0, 0x88, 1, 0, &[0x96, 0x10], &[]);
    assert_eq!(stx.memory[0x0011], 0x88);
    let sty = one(0, 1, 0x99, 0, &[0x94, 0x10], &[]);
    assert_eq!(sty.memory[0x0011], 0x99);
}

#[test]
fn transfers_copy_and_set_flags() {
    let tax = one(0x80, 0, 0, 0, &[0xAA], &[]);
    assert_eq!((tax.cpu.register_x, tax.cpu.status), (0x80, N));
    let tay = one(0x00, 0, 5, 0, &[0xA8], &[]);
    assert_eq!((tay.cpu.register_y, tay.cpu.status), (0x00, Z));
    let txa = one(0, 0x42, 0, N | Z, &[0x8A], &[]);
    assert_eq!((txa.cpu.accumulator, txa.cpu.status), (0x42, 0));
    let tya = one(0, 0, 0xFF, 0, &[0x98], &[]);
    assert_eq!((tya.cpu.accumulator, tya.cpu.status), (0xFF, N));
    let tsx = one(0, 0, 0, 0, &[0xBA], &[]);
    assert_eq!((tsx.cpu.register_x, tsx.cpu.status), (0xFD, N));
}

#[test]
fn txs_touches_no_flag() {
    let txs = one(0, 0x00, 0, N, &[0x9A], &[]);
    assert_eq!((txs.cpu.stack_pointer, txs.cpu.status), (0x00, N));
}

#[test]
fn pha_then_pla_restores_accumulator_and_stack_pointer() {
    // PHA; LDA #0; PLA
    let mut nes = one(0x37, 0, 0, 0, &[0x48, 0xA9, 0x00, 0x68], &[]);
    assert_eq!(nes.memory[0x01FD], 0x37);
    assert_eq!(nes.cpu.stack_pointer, 0xFC);
    assert_eq!(nes.step(), Ok(false));
    assert_eq!((nes.cpu.accumulator, nes.cpu.status), (0x00, Z));
    assert_eq!(nes.step(), Ok(false));
    assert_eq!((nes.cpu.accumulator, nes.cpu.status), (0x37, 0));
    assert_eq!(nes.cpu.stack_pointer, 0xFD);
    assert_eq!(nes.memory[0x01FD], 0x37);
}

#[test]
fn pha_directly_followed_by_pla() {
    let mut nes = one(0x9C, 0, 0, 0, &[0x48, 0x68], &[]);
    assert_eq!(nes.step(), Ok(false));
    assert_eq!(nes.cpu.accumulator, 0x9C);
    assert_eq!(nes.cpu.stack_pointer, 0xFD);
    assert_eq!(nes.cpu.program_counter, 0x0602);
    assert_eq!(nes.memory[0x01FD], 0x9C);
    assert_eq!(nes.cpu.status, N);
}

#[test]
fn php_pushes_break_and_constant_set() {
    let php = one(0, 0, 0, C, &[0x08], &[]);
    assert_eq!(php.memory[0x01FD], 0b0011_0001);
    assert_eq!(php.cpu.status, C);
    assert_eq!(php.cpu.stack_pointer, 0xFC);
}

#[test]
fn plp_clears_break_and_sets_constant() {
    let mut nes = Nes::new(Cpu::new(0, 0, 0, 0x0600, 0, 0xFC));
    nes.mem_write_8(0x0600, 0x28);
    nes.mem_write_8(0x01FD, 0xFF);
    assert_eq!(nes.step(), Ok(false));
    assert_eq!(nes.cpu.status, 0b1110_1111);
    assert_eq!(nes.cpu.stack_pointer, 0xFD);

    let mut other = Nes::new(Cpu::new(0, 0, 0, 0x0600, 0xFF, 0xFC));
    other.mem_write_8(0x0600, 0x28);
    other.mem_write_8(0x01FD, 0x00);
    assert_eq!(other.step(), Ok(false));
    assert_eq!(other.cpu.status, 0b0010_0000);
}

#[test]
fn logic_instructions() {
    let and = one(0xF0, 0, 0, 0, &[0x29, 0x3C], &[]);
    assert_eq!((and.cpu.accumulator, and.cpu.status), (0x30, 0));
    let ora = one(0xF0, 0, 0, 0, &[0x09, 0x0F], &[]);
    assert_eq!((ora.cpu.accumulator, ora.cpu.status), (0xFF, N));
    let eor = one(0xFF, 0, 0, 0, &[0x49, 0xFF], &[]);
    assert_eq!((eor.cpu.accumulator, eor.cpu.status), (0x00, Z));
    let indirect = one(0xFF, 0, 2, 0, &[0x31, 0x40], &[(0x0040, 0x00), (0x0041, 0x20), (0x2002, 0x81)]);
    assert_eq!((indirect.cpu.accumulator, indirect.cpu.status), (0x81, N));
}

#[test]
fn adc_adds_operand_and_carry() {
    let plain = one(0x10, 0, 0, C, &[0x69, 0x20], &[]);
    assert_eq!((plain.cpu.accumulator, plain.cpu.status), (0x31, 0));
    let wrap = one(0xFF, 0, 0, 0, &[0x69, 0x01], &[]);
    assert_eq!((wrap.cpu.accumulator, wrap.cpu.status), (0x00, C | Z));
    let signed = one(0x7F, 0, 0, C, &[0x69, 0x00], &[]);
    assert_eq!((signed.cpu.accumulator, signed.cpu.status), (0x80, V | N));
    let negatives = one(0x80, 0, 0, 0, &[0x69, 0x80], &[]);
    assert_eq!((negatives.cpu.accumulator, negatives.cpu.status), (0x00, C | Z | V));
    let all = one(0xFF, 0, 0, C, &[0x69, 0xFF], &[]);
    assert_eq!((all.cpu.accumulator, all.cpu.status), (0xFF, C | N));
}

#[test]
fn adc_ignores_decimal_mode() {
    let nes = one(0x09, 0, 0, D, &[0x69, 0x01], &[]);
    assert_eq!((nes.cpu.accumulator, nes.cpu.status), (0x0A, D));
}

#[test]
fn sbc_subtracts_operand_and_borrow() {
    let plain = one(0x50, 0, 0, C, &[0xE9, 0x10], &[]);
    assert_eq!((plain.cpu.accumulator, plain.cpu.status), (0x40, C));
    let borrow_in = one(0x50, 0, 0, 0, &[0xE9, 0x10], &[]);
    assert_eq!((borrow_in.cpu.accumulator, borrow_in.cpu.status), (0x3F, C));
    let below = one(0x00, 0, 0, C, &[0xE9, 0x01], &[]);
    assert_eq!((below.cpu.accumulator, below.cpu.status), (0xFF, N));
    let signed = one(0x80, 0, 0, C, &[0xE9, 0x01], &[]);
    assert_eq!((signed.cpu.accumulator, signed.cpu.status), (0x7F, C | V));
    let equal = one(0x33, 0, 0, C, &[0xE9, 0x33], &[]);
    assert_eq!((equal.cpu.accumulator, equal.cpu.status), (0x00, C | Z));
}

#[test]
fn increments_and_decrements_wrap() {
    let inc = one(0, 0, 0, 0, &[0xE6, 0x10], &[(0x0010, 0xFF)]);
    assert_eq!((inc.memory[0x0010], inc.cpu.status), (0x00, Z));
    let dec = one(0, 0, 0, 0, &[0xC6, 0x10], &[(0x0010, 0x00)]);
    assert_eq!((dec.memory[0x0010], dec.cpu.status), (0xFF, N));
    let inx = one(0, 0xFF, 0, 0, &[0xE8], &[]);
    assert_eq!((inx.cpu.register_x, inx.cpu.status), (0x00, Z));
    let iny = one(0, 0, 0x7F, 0, &[0xC8], &[]);
    assert_eq!((iny.cpu.register_y, iny.cpu.status), (0x80, N));
    let dex = one(0, 0x01, 0, 0, &[0xCA], &[]);
    assert_eq!((dex.cpu.register_x, dex.cpu.status), (0x00, Z));
    let dey = one(0, 0, 0x00, 0, &[0x88], &[]);
    assert_eq!((dey.cpu.register_y, dey.cpu.status), (0xFF, N));
}

#[test]
fn comparisons_set_carry_zero_and_negative() {
    let equal = one(0x40, 0, 0, 0, &[0xC9, 0x40], &[]);
    assert_eq!((equal.cpu.accumulator, equal.cpu.status), (0x40, C | Z));
    let below = one(0x40, 0, 0, C, &[0xC9, 0x41], &[]);
    assert_eq!(below.cpu.status, N);
    let above = one(0x80, 0, 0, 0, &[0xC9, 0x01], &[]);
    assert_eq!(above.cpu.status, C);
    let cpx = one(0, 0x10, 0, 0, &[0xE4, 0x20], &[(0x0020, 0x0F)]);
    assert_eq!((cpx.cpu.register_x, cpx.cpu.status), (0x10, C));
    let cpy = one(0, 0, 0x00, 0, &[0xCC, 0x00, 0x03], &[(0x0300, 0x01)]);
    assert_eq!((cpy.cpu.register_y, cpy.cpu.status), (0x00, N));
}

#[test]
fn bit_tests_without_changing_the_accumulator() {
    let disjoint = one(0x01, 0, 0, 0, &[0x24, 0x10], &[(0x0010, 0xC0)]);
    assert_eq!((disjoint.cpu.accumulator, disjoint.cpu.status), (0x01, Z | V | N));
    let shared = one(0xFF, 0, 0, Z | V | N, &[0x2C, 0x00, 0x03], &[(0x0300, 0x3F)]);
    assert_eq!((shared.cpu.accumulator, shared.cpu.status), (0xFF, 0));
}

#[test]
fn asl_shifts_left_into_the_carry() {
    let acc = one(0x81, 0, 0, 0, &[0x0A], &[]);
    assert_eq!((acc.cpu.accumulator, acc.cpu.status), (0x02, C));
    let zero = one(0x80, 0, 0, 0, &[0x0A], &[]);
    assert_eq!((zero.cpu.accumulator, zero.cpu.status), (0x00, C | Z));
    let memory = one(0x55, 0, 0, C, &[0x06, 0x10], &[(0x0010, 0x40)]);
    assert_eq!((memory.memory[0x0010], memory.cpu.accumulator, memory.cpu.status), (0x80, 0x55, N));
}

#[test]
fn lsr_shifts_right_into_the_carry() {
    let acc = one(0x01, 0, 0, N, &[0x4A], &[]);
    assert_eq!((acc.cpu.accumulator, acc.cpu.status), (0x00, C | Z));
    let high = one(0x80, 0, 0, C | N, &[0x4A], &[]);
    assert_eq!((high.cpu.accumulator, high.cpu.status), (0x40, 0));
    let memory = one(0x55, 0, 0, 0, &[0x4E, 0x00, 0x03], &[(0x0300, 0x03)]);
    assert_eq!((memory.memory[0x0300], memory.cpu.accumulator, memory.cpu.status), (0x01, 0x55, C));
}

#[test]
fn rol_rotates_left_through_the_carry() {
    let acc = one(0x80, 0, 0, C, &[0x2A], &[]);
    assert_eq!((acc.cpu.accumulator, acc.cpu.status), (0x01, C));
    let no_carry = one(0x40, 0, 0, 0, &[0x2A], &[]);
    assert_eq!((no_carry.cpu.accumulator, no_carry.cpu.status), (0x80, N));
    let zero = one(0x80, 0, 0, 0, &[0x2A], &[]);
    assert_eq!((zero.cpu.accumulator, zero.cpu.status), (0x00, C | Z));
    let memory = one(0, 1, 0, C, &[0x36, 0x10], &[(0x0011, 0x01)]);
    assert_eq!((memory.memory[0x0011], memory.cpu.status), (0x03, 0));
}

#[test]
fn ror_rotates_right_through_the_carry() {
    let acc = one(0x01, 0, 0, C, &[0x6A], &[]);
    assert_eq!((acc.cpu.accumulator, acc.cpu.status), (0x80, C | N));
    let no_carry = one(0x02, 0, 0, 0, &[0x6A], &[]);
    assert_eq!((no_carry.cpu.accumulator, no_carry.cpu.status), (0x01, 0));
    let zero = one(0x01, 0, 0, 0, &[0x6A], &[]);
    assert_eq!((zero.cpu.accumulator, zero.cpu.status), (0x00, C | Z));
    let memory = one(0, 0, 0, 0, &[0x66, 0x20], &[(0x0020, 0x03)]);
    assert_eq!((memory.memory[0x0020], memory.cpu.status), (0x01, C));
}

#[test]
fn flag_instructions() {
    assert_eq!(one(0, 0, 0, 0, &[0x38], &[]).cpu.status, C);
    assert_eq!(one(0, 0, 0, 0xFF, &[0x18], &[]).cpu.status, 0xFF & !C);
    assert_eq!(one(0, 0, 0, 0, &[0x78], &[]).cpu.status, I);
    assert_eq!(one(0, 0, 0, 0xFF, &[0x58], &[]).cpu.status, 0xFF & !I);
    assert_eq!(one(0, 0, 0, 0, &[0xF8], &[]).cpu.status, D);
    assert_eq!(one(0, 0, 0, 0xFF, &[0xD8], &[]).cpu.status, 0xFF & !D);
    assert_eq!(one(0, 0, 0, 0xFF, &[0xB8], &[]).cpu.status, 0xFF & !V);
    // clearing a clear flag changes nothing
    assert_eq!(one(0, 0, 0, 0, &[0x18], &[]).cpu.status, 0);
    assert_eq!(one(0, 0, 0, 0, &[0xB8], &[]).cpu.status, 0);
}

#[test]
fn compare_law_holds_for_every_pair_of_bytes() {
    for register in 0..=255u8 {
        for operand in [0x00u8, 0x01, 0x7F, 0x80, 0xFE, 0xFF, register] {
            let nes = one(register, 0, 0, 0, &[0xC9, operand], &[]);
            assert_eq!(nes.cpu.has_flag(&StatusFlag::Carry), register >= operand);
            assert_eq!(nes.cpu.has_flag(&StatusFlag::Zero), register == operand);
            assert_eq!(
                nes.cpu.has_flag(&StatusFlag::Negative),
                register.wrapping_sub(operand) & 0x80 != 0
            );
        }
    }
}

#[test]
fn adc_law_holds_for_sample_bytes() {
    for a in [0x00u8, 0x01, 0x50, 0x7F, 0x80, 0x81, 0xD0, 0xFF] {
        for m in [0x00u8, 0x01, 0x50, 0x7F, 0x80, 0x81, 0xD0, 0xFF] {
            for carry in [0u8, 1] {
                let nes = one(a, 0, 0, carry, &[0x69, m], &[]);
                let unsigned: u16 = a as u16 + m as u16 + carry as u16;
                let signed: i16 = (a as i8) as i16 + (m as i8) as i16 + carry as i16;
                assert_eq!(nes.cpu.accumulator, (unsigned & 0xFF) as u8);
                assert_eq!(nes.cpu.has_flag(&StatusFlag::Carry), unsigned > 0xFF);
                assert_eq!(nes.cpu.has_flag(&StatusFlag::Overflow), !(-128..=127).contains(&signed));
                assert_eq!(nes.cpu.has_flag(&StatusFlag::Zero), nes.cpu.accumulator == 0);
                assert_eq!(nes.cpu.has_flag(&StatusFlag::Negative), nes.cpu.accumulator >= 0x80);
            }
        }
    }
}
