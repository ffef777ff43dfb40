//! Laws of the machine: what holds of every state and every operand.

use crate::cpu::lemma_zn_status;
use crate::error::CpuError;
use crate::instructions::{decode, AddressingMode, Instruction, OpCode};
use crate::machine::{
    add16, add8, high_byte, low_byte, modified_byte, signed, stack_address, word, Machine,
    RESET_VECTOR,
};
use crate::status::{flag_set, lemma_with_flag, with_flag, StatusFlag};
use vstd::prelude::*;

verus! {

/// The zero flag tells whether `value` is zero and the negative flag repeats
/// bit 7 of `value`.
pub open spec fn describes(machine: Machine, value: u8) -> bool {
    &&& machine.cpu.flag(StatusFlag::Zero) == (value == 0)
    &&& machine.cpu.flag(StatusFlag::Negative) == (value & 0x80 != 0)
}

/// Every instruction leaves each register within its width (eight bits, and
/// sixteen for the program counter) and the memory image as large as the
/// address space.
pub proof fn law_registers_stay_in_range(machine: Machine)
    requires
        machine.wf(),
        machine.fetch() is Some,
    ensures
        machine.step().wf(),
        0 <= machine.step().cpu.accumulator <= 0xFF,
        0 <= machine.step().cpu.register_x <= 0xFF,
        0 <= machine.step().cpu.register_y <= 0xFF,
        0 <= machine.step().cpu.stack_pointer <= 0xFF,
        0 <= machine.step().cpu.status <= 0xFF,
        0 <= machine.step().cpu.program_counter <= 0xFFFF,
{
}

/// However long the machine runs, the memory image stays as large as the
/// address space.
pub proof fn law_run_keeps_memory_size(machine: Machine, budget: nat)
    requires
        machine.wf(),
    ensures
        machine.run(budget).wf(),
    decreases budget,
{
    if budget != 0 && machine.fetch() is Some {
        law_registers_stay_in_range(machine);
        if !machine.at_break() {
            law_run_keeps_memory_size(machine.step(), (budget - 1) as nat);
        }
    }
}

/// After the zero and negative flags were updated for a value, the zero flag
/// is set exactly if the value is zero and the negative flag equals bit 7 of
/// the value; the other flags are as before.
pub proof fn law_zero_and_negative(machine: Machine, value: u8)
    ensures
        describes(machine.with_zn(value), value),
        forall|flag: StatusFlag|
            #![trigger machine.with_zn(value).cpu.flag(flag)]
            flag != StatusFlag::Zero && flag != StatusFlag::Negative ==> machine.with_zn(
                value,
            ).cpu.flag(flag) == machine.cpu.flag(flag),
{
    lemma_zn_status(machine.cpu.status, value);
}

/// Every instruction that loads or computes a register value leaves the zero
/// and negative flags describing that value.
pub proof fn law_flags_describe_register_results(machine: Machine, mode: AddressingMode)
    ensures
        describes(machine.lda(mode), machine.lda(mode).cpu.accumulator),
        describes(machine.ldx(mode), machine.ldx(mode).cpu.register_x),
        describes(machine.ldy(mode), machine.ldy(mode).cpu.register_y),
        describes(machine.tax(), machine.tax().cpu.register_x),
        describes(machine.tay(), machine.tay().cpu.register_y),
        describes(machine.txa(), machine.txa().cpu.accumulator),
        describes(machine.tya(), machine.tya().cpu.accumulator),
        describes(machine.tsx(), machine.tsx().cpu.register_x),
        describes(machine.pla(), machine.pla().cpu.accumulator),
        describes(machine.and(mode), machine.and(mode).cpu.accumulator),
        describes(machine.ora(mode), machine.ora(mode).cpu.accumulator),
        describes(machine.eor(mode), machine.eor(mode).cpu.accumulator),
        describes(machine.adc(mode), machine.adc(mode).cpu.accumulator),
        describes(machine.sbc(mode), machine.sbc(mode).cpu.accumulator),
        describes(machine.inx(), machine.inx().cpu.register_x),
        describes(machine.iny(), machine.iny().cpu.register_y),
        describes(machine.dex(), machine.dex().cpu.register_x),
        describes(machine.dey(), machine.dey().cpu.register_y),
{
    let cpu = machine.cpu;
    let operand = machine.operand(mode);
    lemma_zn_status(cpu.status, operand);
    lemma_zn_status(cpu.status, cpu.accumulator);
    lemma_zn_status(cpu.status, cpu.register_x);
    lemma_zn_status(cpu.status, cpu.register_y);
    lemma_zn_status(cpu.status, cpu.stack_pointer);
    lemma_zn_status(machine.pull().cpu.status, machine.pull().top());
    lemma_zn_status(cpu.status, cpu.accumulator & operand);
    lemma_zn_status(cpu.status, cpu.accumulator | operand);
    lemma_zn_status(cpu.status, cpu.accumulator ^ operand);
    lemma_zn_status(cpu.status, add8(cpu.register_x, 1));
    lemma_zn_status(cpu.status, add8(cpu.register_y, 1));
    lemma_zn_status(cpu.status, add8(cpu.register_x, -1));
    lemma_zn_status(cpu.status, add8(cpu.register_y, -1));
    lemma_add_describes(machine, operand);
    lemma_add_describes(machine, (0xFF - operand) as u8);
}

/// An addition leaves the zero and negative flags describing the sum.
proof fn lemma_add_describes(machine: Machine, value: u8)
    ensures
        describes(machine.add_with_carry(value), machine.add_with_carry(value).cpu.accumulator),
{
    let a = machine.cpu.accumulator;
    let sum = a + value + machine.cpu.carry();
    let result = (sum % 0x100) as u8;
    let overflow = ((a ^ result) & (value ^ result) & 0x80) != 0;
    let flagged = machine.cpu.with(StatusFlag::Carry, sum > 0xFF).with(
        StatusFlag::Overflow,
        overflow,
    );
    lemma_zn_status(flagged.status, result);
}

/// Every instruction that changes a byte in memory, or shifts the
/// accumulator, leaves the zero and negative flags describing the new byte;
/// a shift to the right always clears the negative flag.
pub proof fn law_flags_describe_modified_bytes(machine: Machine, mode: AddressingMode)
    requires
        machine.wf(),
    ensures
        describes(machine.inc(mode), machine.inc(mode).read8(machine.address(mode))),
        describes(machine.dec(mode), machine.dec(mode).read8(machine.address(mode))),
        describes(machine.asl(mode), modified_byte(machine, machine.asl(mode), mode)),
        describes(machine.lsr(mode), modified_byte(machine, machine.lsr(mode), mode)),
        describes(machine.rol(mode), modified_byte(machine, machine.rol(mode), mode)),
        describes(machine.ror(mode), modified_byte(machine, machine.ror(mode), mode)),
        !machine.lsr(mode).cpu.flag(StatusFlag::Negative),
{
    let value = machine.target(mode);
    let carry = machine.cpu.carry();
    let status = machine.cpu.status;
    lemma_zn_status(status, add8(machine.operand(mode), 1));
    lemma_zn_status(status, add8(machine.operand(mode), -1));
    let left = with_flag(status, StatusFlag::Carry, value >= 0x80);
    let right = with_flag(status, StatusFlag::Carry, value % 2 == 1);
    lemma_zn_status(left, ((value * 2) % 0x100) as u8);
    lemma_zn_status(left, ((value * 2 + carry) % 0x100) as u8);
    lemma_zn_status(right, value / 2);
    lemma_zn_status(right, (value / 2 + 0x80 * carry) as u8);
}

/// A comparison sets the carry flag exactly if the register is at least the
/// operand and the zero flag exactly if the two are equal; the negative flag
/// is bit 7 of the wrapped difference.
pub proof fn law_compare(machine: Machine, register: u8, value: u8)
    ensures
        machine.compare(register, value).cpu.flag(StatusFlag::Carry) == (register >= value),
        machine.compare(register, value).cpu.flag(StatusFlag::Zero) == (register == value),
        machine.compare(register, value).cpu.flag(StatusFlag::Negative) == (add8(
            register,
            -(value as int),
        ) >= 0x80),
{
    let carried = with_flag(machine.cpu.status, StatusFlag::Carry, register >= value);
    lemma_with_flag(machine.cpu.status, StatusFlag::Carry, register >= value);
    lemma_zn_status(carried, add8(register, -(value as int)));
}

/// `CMP`, `CPX` and `CPY` compare the accumulator, X and Y with the operand:
/// carry exactly if the register is at least the operand, zero exactly if
/// the two are equal.
pub proof fn law_compare_instructions(machine: Machine, mode: AddressingMode)
    ensures
        machine.cmp(mode).cpu.flag(StatusFlag::Carry) == (machine.cpu.accumulator
            >= machine.operand(mode)),
        machine.cmp(mode).cpu.flag(StatusFlag::Zero) == (machine.cpu.accumulator
            == machine.operand(mode)),
        machine.cpx(mode).cpu.flag(StatusFlag::Carry) == (machine.cpu.register_x
            >= machine.operand(mode)),
        machine.cpx(mode).cpu.flag(StatusFlag::Zero) == (machine.cpu.register_x
            == machine.operand(mode)),
        machine.cpy(mode).cpu.flag(StatusFlag::Carry) == (machine.cpu.register_y
            >= machine.operand(mode)),
        machine.cpy(mode).cpu.flag(StatusFlag::Zero) == (machine.cpu.register_y
            == machine.operand(mode)),
{
    law_compare(machine, machine.cpu.accumulator, machine.operand(mode));
    law_compare(machine, machine.cpu.register_x, machine.operand(mode));
    law_compare(machine, machine.cpu.register_y, machine.operand(mode));
}

/// An addition with carry, read as unsigned, leaves the low eight bits of
/// `A + M + C` in the accumulator and its ninth bit in the carry flag; read
/// as two's complement, it sets the overflow flag exactly if the signed sum
/// does not fit into eight bits.
pub proof fn law_add_with_carry(machine: Machine, value: u8)
    ensures
        ({
            let sum = machine.cpu.accumulator + value + machine.cpu.carry();
            let signed_sum = signed(machine.cpu.accumulator) + signed(value) + machine.cpu.carry();
            let after = machine.add_with_carry(value);
            &&& after.cpu.accumulator == sum % 0x100
            &&& after.cpu.flag(StatusFlag::Carry) == ((sum / 0x100) % 2 == 1)
            &&& after.cpu.carry() * 0x100 + after.cpu.accumulator == sum
            &&& after.cpu.flag(StatusFlag::Overflow) == !(-128 <= signed_sum <= 127)
            &&& after.mem == machine.mem
        }),
{
    let a = machine.cpu.accumulator;
    let carry = machine.cpu.carry();
    let sum = a + value + carry;
    let result = (sum % 0x100) as u8;
    let overflow = ((a ^ result) & (value ^ result) & 0x80) != 0;
    let carried = with_flag(machine.cpu.status, StatusFlag::Carry, sum > 0xFF);
    let flagged = with_flag(carried, StatusFlag::Overflow, overflow);
    lemma_with_flag(machine.cpu.status, StatusFlag::Carry, sum > 0xFF);
    lemma_with_flag(carried, StatusFlag::Overflow, overflow);
    lemma_zn_status(flagged, result);
    assert(overflow == ((a < 0x80 && value < 0x80 && result >= 0x80) || (a >= 0x80 && value
        >= 0x80 && result < 0x80))) by (bit_vector)
        requires
            overflow == (((a ^ result) & (value ^ result) & 0x80) != 0),
    ;
}

/// `ADC` adds the operand, and `SBC` the operand's complement, which makes
/// the unsigned result `A - M - (1 - C)` with the carry clear after a borrow.
pub proof fn law_adc_and_sbc(machine: Machine, mode: AddressingMode)
    ensures
        machine.adc(mode) == machine.add_with_carry(machine.operand(mode)),
        machine.sbc(mode).cpu.accumulator == (machine.cpu.accumulator - machine.operand(mode) - (1
            - machine.cpu.carry())) % 0x100,
        machine.sbc(mode).cpu.flag(StatusFlag::Carry) == (machine.cpu.accumulator
            - machine.operand(mode) - (1 - machine.cpu.carry()) >= 0),
{
    law_add_with_carry(machine, (0xFF - machine.operand(mode)) as u8);
}

/// `PHA` followed by `PLA` restores the accumulator and the stack pointer,
/// and the stack slot that the stack pointer designated before holds the
/// pushed value.
pub proof fn law_push_then_pull(machine: Machine)
    requires
        machine.wf(),
    ensures
        machine.pha().pla().cpu.accumulator == machine.cpu.accumulator,
        machine.pha().pla().cpu.stack_pointer == machine.cpu.stack_pointer,
        machine.pha().read8(stack_address(machine.cpu.stack_pointer)) == machine.cpu.accumulator,
        machine.pha().pla().mem == machine.pha().mem,
        machine.pha().pla().read8(stack_address(machine.cpu.stack_pointer))
            == machine.cpu.accumulator,
{
}

/// The table entries of the four opcodes that the laws on stack use.
proof fn lemma_stack_opcodes()
    ensures
        decode(0x48) == Some(
            OpCode {
                code: 0x48,
                bytes: 1,
                cycles: 3,
                instruction: Instruction::Pha,
                address_mode: AddressingMode::Implied,
            },
        ),
        decode(0x68) == Some(
            OpCode {
                code: 0x68,
                bytes: 1,
                cycles: 4,
                instruction: Instruction::Pla,
                address_mode: AddressingMode::Implied,
            },
        ),
        decode(0x20) == Some(
            OpCode {
                code: 0x20,
                bytes: 3,
                cycles: 6,
                instruction: Instruction::Jsr,
                address_mode: AddressingMode::Absolute,
            },
        ),
        decode(0x60) == Some(
            OpCode {
                code: 0x60,
                bytes: 1,
                cycles: 6,
                instruction: Instruction::Rts,
                address_mode: AddressingMode::Implied,
            },
        ),
{
}

/// A step over `PHA` pushes the accumulator and moves on by one byte.
proof fn lemma_pha_step(machine: Machine)
    requires
        machine.read8(machine.cpu.program_counter) == 0x48,
    ensures
        machine.step() == machine.at(add16(machine.cpu.program_counter, 1)).pha(),
{
    lemma_stack_opcodes();
    let next = add16(machine.cpu.program_counter, 1);
    let opcode = machine.fetch().unwrap();
    assert(machine.at(next).execute(opcode) == machine.at(next).pha());
    assert(machine.at(next).pha().cpu.program_counter == next);
    assert(machine.at(next).pha().advance(next, 1) == machine.at(next).pha());
}

/// A step over `PLA` pulls the accumulator and moves on by one byte.
proof fn lemma_pla_step(machine: Machine)
    requires
        machine.read8(machine.cpu.program_counter) == 0x68,
    ensures
        machine.step() == machine.pla().at(add16(machine.cpu.program_counter, 1)),
{
    lemma_stack_opcodes();
    let next = add16(machine.cpu.program_counter, 1);
    let opcode = machine.fetch().unwrap();
    assert(machine.at(next).execute(opcode) == machine.at(next).pla());
    assert(machine.at(next).pla() == machine.pla().at(next));
    assert(machine.pla().at(next).advance(next, 1) == machine.pla().at(next));
}

/// A step over `JSR` runs its body and leaves the program counter at the
/// target, unless the target is the address after the opcode byte.
proof fn lemma_jsr_step(machine: Machine)
    requires
        machine.read8(machine.cpu.program_counter) == 0x20,
        machine.read16(add16(machine.cpu.program_counter, 1)) != add16(
            machine.cpu.program_counter,
            1,
        ),
    ensures
        machine.step() == machine.at(add16(machine.cpu.program_counter, 1)).jsr(
            AddressingMode::Absolute,
        ),
        machine.step().cpu.program_counter == machine.read16(
            add16(machine.cpu.program_counter, 1),
        ),
{
    lemma_stack_opcodes();
    let next = add16(machine.cpu.program_counter, 1);
    let opcode = machine.fetch().unwrap();
    let called = machine.at(next).jsr(AddressingMode::Absolute);
    assert(machine.at(next).execute(opcode) == called);
    assert(called.cpu.program_counter == machine.read16(next));
    assert(called.advance(next, 3) == called);
}

/// A step over `RTS` runs its body.
proof fn lemma_rts_step(machine: Machine)
    requires
        machine.read8(machine.cpu.program_counter) == 0x60,
    ensures
        machine.step() == machine.rts(),
{
    lemma_stack_opcodes();
    let next = add16(machine.cpu.program_counter, 1);
    let opcode = machine.fetch().unwrap();
    assert(machine.at(next).execute(opcode) == machine.at(next).rts());
    assert(machine.at(next).rts() == machine.rts());
    assert(machine.rts().advance(next, 1) == machine.rts());
}

/// Executing `PHA` and then `PLA` from memory restores the accumulator and
/// the stack pointer, moves the program counter past both, and leaves the
/// pushed value in its stack slot.
pub proof fn law_pha_pla_steps(machine: Machine)
    requires
        machine.wf(),
        machine.read8(machine.cpu.program_counter) == 0x48,
        machine.step().read8(add16(machine.cpu.program_counter, 1)) == 0x68,
    ensures
        machine.step().step().cpu.accumulator == machine.cpu.accumulator,
        machine.step().step().cpu.stack_pointer == machine.cpu.stack_pointer,
        machine.step().step().cpu.program_counter == add16(machine.cpu.program_counter, 2),
        machine.step().step().read8(stack_address(machine.cpu.stack_pointer))
            == machine.cpu.accumulator,
{
    let entered = machine.at(add16(machine.cpu.program_counter, 1));
    lemma_pha_step(machine);
    lemma_pla_step(entered.pha());
    law_push_then_pull(entered);
}

/// A `JSR` whose target holds an `RTS` comes back to the byte after the
/// three bytes of the `JSR`, with the stack pointer restored.
///
/// The target must not be the second byte of the `JSR` itself: a jump to the
/// address after the opcode byte is not told from no jump at all.
#[verifier::rlimit(50)]
pub proof fn law_jsr_then_rts(machine: Machine)
    requires
        machine.wf(),
        machine.read8(machine.cpu.program_counter) == 0x20,
        machine.read16(add16(machine.cpu.program_counter, 1)) != add16(
            machine.cpu.program_counter,
            1,
        ),
        machine.step().read8(machine.read16(add16(machine.cpu.program_counter, 1))) == 0x60,
    ensures
        machine.step().cpu.program_counter == machine.read16(
            add16(machine.cpu.program_counter, 1),
        ),
        machine.step().step().cpu.program_counter == add16(machine.cpu.program_counter, 3),
        machine.step().step().cpu.stack_pointer == machine.cpu.stack_pointer,
{
    let next = add16(machine.cpu.program_counter, 1);
    let entered = machine.at(next);
    let called = entered.jsr(AddressingMode::Absolute);
    lemma_jsr_step(machine);
    lemma_rts_step(called);
    law_call_then_return(entered, AddressingMode::Absolute);
    assert(add16(next, 2) == add16(machine.cpu.program_counter, 3));
}

/// The body of `JSR` followed by the body of `RTS` continues two bytes after
/// the first operand byte of the `JSR`, with the stack pointer restored.
pub proof fn law_call_then_return(machine: Machine, mode: AddressingMode)
    requires
        machine.wf(),
    ensures
        machine.jsr(mode).rts().cpu.program_counter == add16(machine.cpu.program_counter, 2),
        machine.jsr(mode).rts().cpu.stack_pointer == machine.cpu.stack_pointer,
{
}

/// Where the pointer of an indirect jump lies at the end of a page, the high
/// byte of the target comes from the start of that page, not from the next
/// page: for the pointer `$02FF` it is read at `$0200`.
pub proof fn law_indirect_jump_stays_in_page(machine: Machine)
    requires
        machine.wf(),
        machine.read16(machine.cpu.program_counter) % 0x100 == 0xFF,
    ensures
        ({
            let pointer = machine.read16(machine.cpu.program_counter);
            let target = word(machine.read8(pointer), machine.read8((pointer - 0xFF) as u16));
            &&& machine.effective_address(AddressingMode::Indirect) == Some(target)
            &&& machine.jmp(AddressingMode::Indirect).cpu.program_counter == target
            &&& pointer == 0x02FF ==> target == word(machine.read8(0x02FF), machine.read8(0x0200))
        }),
{
}

/// A reset clears A, X and Y, puts the stack pointer at `$FD`, sets the
/// interrupt-disable and constant flags and clears the other six, loads the
/// program counter from the reset vector and leaves memory alone.
pub proof fn law_reset(machine: Machine)
    ensures
        machine.reset().cpu.accumulator == 0,
        machine.reset().cpu.register_x == 0,
        machine.reset().cpu.register_y == 0,
        machine.reset().cpu.stack_pointer == 0xFD,
        machine.reset().cpu.program_counter == machine.read16(RESET_VECTOR),
        forall|flag: StatusFlag|
            #![trigger machine.reset().cpu.flag(flag)]
            machine.reset().cpu.flag(flag) == (flag == StatusFlag::Interrupt || flag
                == StatusFlag::Constant),
        machine.reset().mem == machine.mem,
{
    assert(0x24u8 & 0x01 == 0 && 0x24u8 & 0x02 == 0 && 0x24u8 & 0x04 != 0 && 0x24u8 & 0x08 == 0
        && 0x24u8 & 0x10 == 0 && 0x24u8 & 0x20 != 0 && 0x24u8 & 0x40 == 0 && 0x24u8 & 0x80 == 0)
        by (bit_vector);
}

/// The status byte that `PHP` and `BRK` push has the break and constant
/// flags set and the other six flags as they are in the status register,
/// which the push itself leaves alone.
pub proof fn law_pushed_status(machine: Machine)
    requires
        machine.wf(),
    ensures
        forall|flag: StatusFlag|
            #![trigger flag_set(machine.pushed_status(), flag)]
            flag_set(machine.pushed_status(), flag) == (flag == StatusFlag::Break || flag
                == StatusFlag::Constant || machine.cpu.flag(flag)),
        machine.php().read8(stack_address(machine.cpu.stack_pointer)) == machine.pushed_status(),
        machine.php().cpu.status == machine.cpu.status,
        machine.brk().cpu.flag(StatusFlag::Interrupt),
{
    let first = with_flag(machine.cpu.status, StatusFlag::Break, true);
    lemma_with_flag(machine.cpu.status, StatusFlag::Break, true);
    lemma_with_flag(first, StatusFlag::Constant, true);
    assert forall|flag: StatusFlag|
        #![trigger flag_set(machine.pushed_status(), flag)]
        flag_set(machine.pushed_status(), flag) == (flag == StatusFlag::Break || flag
            == StatusFlag::Constant || machine.cpu.flag(flag)) by {
        assert(flag_set(with_flag(first, StatusFlag::Constant, true), flag) == (flag
            == StatusFlag::Constant || flag_set(first, flag)));
        assert(flag_set(with_flag(machine.cpu.status, StatusFlag::Break, true), flag) == (flag
            == StatusFlag::Break || machine.cpu.flag(flag)));
    }
    let pushed = machine.push(high_byte(add16(machine.cpu.program_counter, 1))).push(
        low_byte(add16(machine.cpu.program_counter, 1)),
    ).php();
    lemma_with_flag(pushed.cpu.status, StatusFlag::Interrupt, true);
}

/// The status byte that `PLP` and `RTI` install has the break flag clear,
/// the constant flag set and the other six flags as they lie on the stack.
pub proof fn law_pulled_status(machine: Machine)
    ensures
        forall|flag: StatusFlag|
            #![trigger machine.plp().cpu.flag(flag)]
            machine.plp().cpu.flag(flag) == (flag != StatusFlag::Break && (flag
                == StatusFlag::Constant || flag_set(machine.pull().top(), flag))),
        machine.plp().cpu.stack_pointer == add8(machine.cpu.stack_pointer, 1),
        machine.plp().mem == machine.mem,
{
    let pulled = machine.pull().top();
    let first = with_flag(pulled, StatusFlag::Break, false);
    lemma_with_flag(pulled, StatusFlag::Break, false);
    lemma_with_flag(first, StatusFlag::Constant, true);
    assert forall|flag: StatusFlag|
        #![trigger machine.plp().cpu.flag(flag)]
        machine.plp().cpu.flag(flag) == (flag != StatusFlag::Break && (flag
            == StatusFlag::Constant || flag_set(machine.pull().top(), flag))) by {
        assert(flag_set(with_flag(first, StatusFlag::Constant, true), flag) == (flag
            == StatusFlag::Constant || flag_set(first, flag)));
        assert(flag_set(with_flag(pulled, StatusFlag::Break, false), flag) == (flag
            != StatusFlag::Break && flag_set(pulled, flag)));
    }
}

/// Stores, `TXS`, `PHA`, jumps, calls, returns and branches leave the status
/// byte as it is; stores and pushes leave every register but the stack
/// pointer as it is.
pub proof fn law_status_untouched(machine: Machine, mode: AddressingMode, taken: bool)
    ensures
        machine.sta(mode).cpu == machine.cpu,
        machine.stx(mode).cpu == machine.cpu,
        machine.sty(mode).cpu == machine.cpu,
        machine.txs().cpu.status == machine.cpu.status,
        machine.pha().cpu.status == machine.cpu.status,
        machine.jmp(mode).cpu.status == machine.cpu.status,
        machine.jsr(mode).cpu.status == machine.cpu.status,
        machine.rts().cpu.status == machine.cpu.status,
        machine.branch(taken).cpu.status == machine.cpu.status,
        machine.branch(taken).mem == machine.mem,
{
}

/// The decimal flag is inert: an addition gives the same accumulator and
/// the same other flags whether the flag is set or clear, and keeps it.
pub proof fn law_decimal_flag_is_inert(machine: Machine, value: u8, decimal: bool)
    ensures
        machine.with(StatusFlag::Decimal, decimal).add_with_carry(value).cpu.accumulator
            == machine.add_with_carry(value).cpu.accumulator,
        forall|flag: StatusFlag|
            #![trigger machine.with(StatusFlag::Decimal, decimal).add_with_carry(value).cpu.flag(flag)]
            machine.with(StatusFlag::Decimal, decimal).add_with_carry(value).cpu.flag(flag) == (
            if flag == StatusFlag::Decimal {
                decimal
            } else {
                machine.add_with_carry(value).cpu.flag(flag)
            }),
{
    let other = machine.with(StatusFlag::Decimal, decimal);
    lemma_with_flag(machine.cpu.status, StatusFlag::Decimal, decimal);
    assert(other.cpu.carry() == machine.cpu.carry());
    lemma_add_flags(machine, value);
    lemma_add_flags(other, value);
    assert forall|flag: StatusFlag|
        #![trigger other.add_with_carry(value).cpu.flag(flag)]
        other.add_with_carry(value).cpu.flag(flag) == (if flag == StatusFlag::Decimal {
            decimal
        } else {
            machine.add_with_carry(value).cpu.flag(flag)
        }) by {
        assert(other.cpu.flag(flag) == (if flag == StatusFlag::Decimal {
            decimal
        } else {
            machine.cpu.flag(flag)
        }));
    }
}

/// An addition decides the carry, overflow, zero and negative flags from the
/// accumulator, the operand and the carry, and keeps the other four flags.
proof fn lemma_add_flags(machine: Machine, value: u8)
    ensures
        ({
            let a = machine.cpu.accumulator;
            let sum = a + value + machine.cpu.carry();
            let result = (sum % 0x100) as u8;
            let after = machine.add_with_carry(value);
            &&& after.cpu.accumulator == result
            &&& after.cpu.flag(StatusFlag::Carry) == (sum > 0xFF)
            &&& after.cpu.flag(StatusFlag::Overflow) == (((a ^ result) & (value ^ result) & 0x80)
                != 0)
            &&& after.cpu.flag(StatusFlag::Zero) == (result == 0)
            &&& after.cpu.flag(StatusFlag::Negative) == (result >= 0x80)
            &&& after.cpu.flag(StatusFlag::Interrupt) == machine.cpu.flag(StatusFlag::Interrupt)
            &&& after.cpu.flag(StatusFlag::Decimal) == machine.cpu.flag(StatusFlag::Decimal)
            &&& after.cpu.flag(StatusFlag::Break) == machine.cpu.flag(StatusFlag::Break)
            &&& after.cpu.flag(StatusFlag::Constant) == machine.cpu.flag(StatusFlag::Constant)
        }),
{
    let a = machine.cpu.accumulator;
    let sum = a + value + machine.cpu.carry();
    let result = (sum % 0x100) as u8;
    let overflow = ((a ^ result) & (value ^ result) & 0x80) != 0;
    let carried = with_flag(machine.cpu.status, StatusFlag::Carry, sum > 0xFF);
    let flagged = with_flag(carried, StatusFlag::Overflow, overflow);
    lemma_with_flag(machine.cpu.status, StatusFlag::Carry, sum > 0xFF);
    lemma_with_flag(carried, StatusFlag::Overflow, overflow);
    lemma_zn_status(flagged, result);
}

/// Running in two slices is running at once: where the first `first`
/// instructions neither halt nor fail, a budget of `first + rest` ends where
/// a budget of `rest` ends after them, and in the same way.
pub proof fn law_run_in_slices(machine: Machine, first: nat, rest: nat)
    requires
        machine.run_result(first) == Ok::<bool, CpuError>(false),
    ensures
        machine.run(first + rest) == machine.run(first).run(rest),
        machine.run_result(first + rest) == machine.run(first).run_result(rest),
    decreases first,
{
    if first != 0 {
        law_run_in_slices(machine.step(), (first - 1) as nat, rest);
        assert((first + rest - 1) as nat == (first - 1) as nat + rest);
    }
}

/// Where a run fails, the error names a byte that is no official opcode and
/// the address it lies at, and the program counter stands just after it.
pub proof fn law_run_error_names_the_byte(machine: Machine, budget: nat)
    ensures
        machine.run_result(budget) matches Err(error) ==> {
            &&& error matches CpuError::UnsupportedOpcode { byte, pc }
            &&& decode(byte) is None
            &&& machine.run(budget).read8(pc) == byte
            &&& machine.run(budget).cpu.program_counter == add16(pc, 1)
        },
    decreases budget,
{
    if budget != 0 && machine.fetch() is Some && !machine.at_break() {
        law_run_error_names_the_byte(machine.step(), (budget - 1) as nat);
    }
}

} // verus!
