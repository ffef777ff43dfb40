//! The interpreter: the addressing-mode resolver, the instructions, and the
//! fetch-decode-execute step.

use crate::cpu::PROGRAM_START;
use crate::error::CpuError;
use crate::instructions::{AddressingMode, Instruction, OpCode};
use crate::laws::law_add_with_carry;
use crate::machine::{modified_byte, signed, BREAK_VECTOR};
use crate::nes::{
    back16, back8, forward16, forward8, high_of, low_of, make_word, widen, Nes,
};
use crate::status::StatusFlag;
use vstd::prelude::*;

verus! {

impl Nes {
    /// Resolves the effective address of the operand under `mode`, with the
    /// program counter at the first operand byte.
    ///
    /// Returns `None` for the implied, accumulator and relative modes, which
    /// designate no memory location.
    pub fn get_operand_address(&self, mode: &AddressingMode) -> (address: Option<u16>)
        ensures
            address == self@.effective_address(*mode),
            address is Some <==> mode.has_address(),
    {
        let program_counter = self.cpu.program_counter;
        match mode {
            AddressingMode::Implied | AddressingMode::Accumulator | AddressingMode::Relative => None,
            AddressingMode::Immediate => Some(program_counter),
            AddressingMode::ZeroPage => Some(self.mem_read_8(program_counter) as u16),
            AddressingMode::ZeroPageX => {
                let position = self.mem_read_8(program_counter);
                Some(forward8(position, self.cpu.register_x) as u16)
            },
            AddressingMode::ZeroPageY => {
                let position = self.mem_read_8(program_counter);
                Some(forward8(position, self.cpu.register_y) as u16)
            },
            AddressingMode::Absolute => Some(self.mem_read_16(program_counter)),
            AddressingMode::AbsoluteX => {
                let position = self.mem_read_16(program_counter);
                Some(forward16(position, self.cpu.register_x as u16))
            },
            AddressingMode::AbsoluteY => {
                let position = self.mem_read_16(program_counter);
                Some(forward16(position, self.cpu.register_y as u16))
            },
            AddressingMode::Indirect => {
                let pointer = self.mem_read_16(program_counter);
                let successor = make_word(forward8(low_of(pointer), 1), high_of(pointer));
                let low = self.mem_read_8(pointer);
                let high = self.mem_read_8(successor);
                Some(make_word(low, high))
            },
            AddressingMode::IndexedIndirectX => {
                let start = forward8(self.mem_read_8(program_counter), self.cpu.register_x);
                let low = self.mem_read_8(start as u16);
                let high = self.mem_read_8(forward8(start, 1) as u16);
                Some(make_word(low, high))
            },
            AddressingMode::IndirectIndexedY => {
                let start = self.mem_read_8(program_counter);
                let low = self.mem_read_8(start as u16);
                let high = self.mem_read_8(forward8(start, 1) as u16);
                Some(forward16(make_word(low, high), self.cpu.register_y as u16))
            },
        }
    }

    /// The address that an instruction with a memory operand works on.
    fn operand_address(&self, mode: &AddressingMode) -> (address: u16)
        requires
            mode.has_address(),
        ensures
            address == self@.address(*mode),
    {
        self.get_operand_address(mode).unwrap()
    }

    /// The operand byte of an instruction that reads memory.
    fn operand(&self, mode: &AddressingMode) -> (value: u8)
        requires
            mode.has_address(),
        ensures
            value == self@.operand(*mode),
    {
        self.mem_read_8(self.operand_address(mode))
    }

    /// The byte a shift or rotate works on.
    fn target(&self, mode: &AddressingMode) -> (value: u8)
        requires
            mode.has_address() || mode is Accumulator,
        ensures
            value == self@.target(*mode),
    {
        match mode {
            AddressingMode::Accumulator => self.cpu.accumulator,
            _ => self.operand(mode),
        }
    }

    /// Stores `result` where a shift or rotate found its operand.
    fn store_target(&mut self, mode: &AddressingMode, result: u8)
        requires
            mode.has_address() || mode is Accumulator,
        ensures
            final(self)@ == old(self)@.store_target(*mode, result),
    {
        match mode {
            AddressingMode::Accumulator => {
                self.cpu.accumulator = result;
            },
            _ => {
                let address = self.operand_address(mode);
                self.mem_write_8(address, result);
            },
        }
    }

    /// `LDA`: loads the accumulator from the operand and describes it in the zero and
    /// negative flags.
    fn lda(&mut self, opcode: &OpCode)
        requires
            opcode.address_mode.has_address(),
        ensures
            final(self)@ == old(self)@.lda(opcode.address_mode),
            final(self).cpu.flag(StatusFlag::Zero) == (final(self).cpu.accumulator == 0),
            final(self).cpu.flag(StatusFlag::Negative) == (final(self).cpu.accumulator >= 0x80),
    {
        let value = self.operand(&opcode.address_mode);
        self.cpu.accumulator = value;
        self.cpu.update_zero_and_negative_flags(value);
    }

    /// `LDX`: loads X from the operand and describes it in the zero and
    /// negative flags.
    fn ldx(&mut self, opcode: &OpCode)
        requires
            opcode.address_mode.has_address(),
        ensures
            final(self)@ == old(self)@.ldx(opcode.address_mode),
            final(self).cpu.flag(StatusFlag::Zero) == (final(self).cpu.register_x == 0),
            final(self).cpu.flag(StatusFlag::Negative) == (final(self).cpu.register_x >= 0x80),
    {
        let value = self.operand(&opcode.address_mode);
        self.cpu.register_x = value;
        self.cpu.update_zero_and_negative_flags(value);
    }

    /// `LDY`: loads Y from the operand and describes it in the zero and
    /// negative flags.
    fn ldy(&mut self, opcode: &OpCode)
        requires
            opcode.address_mode.has_address(),
        ensures
            final(self)@ == old(self)@.ldy(opcode.address_mode),
            final(self).cpu.flag(StatusFlag::Zero) == (final(self).cpu.register_y == 0),
            final(self).cpu.flag(StatusFlag::Negative) == (final(self).cpu.register_y >= 0x80),
    {
        let value = self.operand(&opcode.address_mode);
        self.cpu.register_y = value;
        self.cpu.update_zero_and_negative_flags(value);
    }

    /// `STA`: stores the accumulator at the operand address; no flag changes.
    fn sta(&mut self, opcode: &OpCode)
        requires
            opcode.address_mode.has_address(),
        ensures
            final(self)@ == old(self)@.sta(opcode.address_mode),
    {
        let address = self.operand_address(&opcode.address_mode);
        self.mem_write_8(address, self.cpu.accumulator);
    }

    /// `STX`: stores X at the operand address; no flag changes.
    fn stx(&mut self, opcode: &OpCode)
        requires
            opcode.address_mode.has_address(),
        ensures
            final(self)@ == old(self)@.stx(opcode.address_mode),
    {
        let address = self.operand_address(&opcode.address_mode);
        self.mem_write_8(address, self.cpu.register_x);
    }

    /// `STY`: stores Y at the operand address; no flag changes.
    fn sty(&mut self, opcode: &OpCode)
        requires
            opcode.address_mode.has_address(),
        ensures
            final(self)@ == old(self)@.sty(opcode.address_mode),
    {
        let address = self.operand_address(&opcode.address_mode);
        self.mem_write_8(address, self.cpu.register_y);
    }

    /// `TAX`: copies the accumulator to X and describes it in the zero and negative flags.
    fn tax(&mut self)
        ensures
            final(self)@ == old(self)@.tax(),
            final(self).cpu.flag(StatusFlag::Zero) == (final(self).cpu.register_x == 0),
            final(self).cpu.flag(StatusFlag::Negative) == (final(self).cpu.register_x >= 0x80),
    {
        let value = self.cpu.accumulator;
        self.cpu.register_x = value;
        self.cpu.update_zero_and_negative_flags(value);
    }

    /// `TAY`: copies the accumulator to Y and describes it in the zero and negative flags.
    fn tay(&mut self)
        ensures
            final(self)@ == old(self)@.tay(),
            final(self).cpu.flag(StatusFlag::Zero) == (final(self).cpu.register_y == 0),
            final(self).cpu.flag(StatusFlag::Negative) == (final(self).cpu.register_y >= 0x80),
    {
        let value = self.cpu.accumulator;
        self.cpu.register_y = value;
        self.cpu.update_zero_and_negative_flags(value);
    }

    /// `TXA`: copies X to the accumulator and describes it in the zero and negative flags.
    fn txa(&mut self)
        ensures
            final(self)@ == old(self)@.txa(),
            final(self).cpu.flag(StatusFlag::Zero) == (final(self).cpu.accumulator == 0),
            final(self).cpu.flag(StatusFlag::Negative) == (final(self).cpu.accumulator >= 0x80),
    {
        let value = self.cpu.register_x;
        self.cpu.accumulator = value;
        self.cpu.update_zero_and_negative_flags(value);
    }

    /// `TYA`: copies Y to the accumulator and describes it in the zero and negative flags.
    fn tya(&mut self)
        ensures
            final(self)@ == old(self)@.tya(),
            final(self).cpu.flag(StatusFlag::Zero) == (final(self).cpu.accumulator == 0),
            final(self).cpu.flag(StatusFlag::Negative) == (final(self).cpu.accumulator >= 0x80),
    {
        let value = self.cpu.register_y;
        self.cpu.accumulator = value;
        self.cpu.update_zero_and_negative_flags(value);
    }

    /// `TSX`: copies the stack pointer to X and describes it in the zero and negative flags.
    fn tsx(&mut self)
        ensures
            final(self)@ == old(self)@.tsx(),
            final(self).cpu.flag(StatusFlag::Zero) == (final(self).cpu.register_x == 0),
            final(self).cpu.flag(StatusFlag::Negative) == (final(self).cpu.register_x >= 0x80),
    {
        let value = self.cpu.stack_pointer;
        self.cpu.register_x = value;
        self.cpu.update_zero_and_negative_flags(value);
    }

    /// `TXS`: copies X to the stack pointer; no flag changes.
    fn txs(&mut self)
        ensures
            final(self)@ == old(self)@.txs(),
    {
        self.cpu.stack_pointer = self.cpu.register_x;
    }

    /// `PHA`: pushes the accumulator.
    fn pha(&mut self)
        ensures
            final(self)@ == old(self)@.pha(),
    {
        self.push_stack(self.cpu.accumulator);
    }

    /// `PLA`: pulls the accumulator and describes it in the zero and
    /// negative flags.
    fn pla(&mut self)
        ensures
            final(self)@ == old(self)@.pla(),
            final(self).cpu.flag(StatusFlag::Zero) == (final(self).cpu.accumulator == 0),
            final(self).cpu.flag(StatusFlag::Negative) == (final(self).cpu.accumulator >= 0x80),
    {
        let value = self.pop_stack();
        self.cpu.accumulator = value;
        self.cpu.update_zero_and_negative_flags(value);
    }

    /// `PHP`: pushes the status byte with break and constant set.
    fn php(&mut self)
        ensures
            final(self)@ == old(self)@.php(),
    {
        let status = crate::status::enable_flag(
            crate::status::enable_flag(self.cpu.status, StatusFlag::Break),
            StatusFlag::Constant,
        );
        self.push_stack(status);
    }

    /// `PLP`: pulls the status byte, with break cleared and constant set.
    fn plp(&mut self)
        ensures
            final(self)@ == old(self)@.plp(),
    {
        let status = self.pop_stack();
        self.cpu.status = crate::status::enable_flag(
            crate::status::disable_flag(status, StatusFlag::Break),
            StatusFlag::Constant,
        );
    }

    /// `AND`: bitwise and of the accumulator and the operand, into the accumulator.
    fn and(&mut self, opcode: &OpCode)
        requires
            opcode.address_mode.has_address(),
        ensures
            final(self)@ == old(self)@.and(opcode.address_mode),
            final(self).cpu.flag(StatusFlag::Zero) == (final(self).cpu.accumulator == 0),
            final(self).cpu.flag(StatusFlag::Negative) == (final(self).cpu.accumulator >= 0x80),
    {
        let value = self.operand(&opcode.address_mode);
        let result = self.cpu.accumulator & value;
        self.cpu.accumulator = result;
        self.cpu.update_zero_and_negative_flags(result);
    }

    /// `ORA`: bitwise or of the accumulator and the operand, into the accumulator.
    fn ora(&mut self, opcode: &OpCode)
        requires
            opcode.address_mode.has_address(),
        ensures
            final(self)@ == old(self)@.ora(opcode.address_mode),
            final(self).cpu.flag(StatusFlag::Zero) == (final(self).cpu.accumulator == 0),
            final(self).cpu.flag(StatusFlag::Negative) == (final(self).cpu.accumulator >= 0x80),
    {
        let value = self.operand(&opcode.address_mode);
        let result = self.cpu.accumulator | value;
        self.cpu.accumulator = result;
        self.cpu.update_zero_and_negative_flags(result);
    }

    /// `EOR`: bitwise exclusive or of the accumulator and the operand, into the accumulator.
    fn eor(&mut self, opcode: &OpCode)
        requires
            opcode.address_mode.has_address(),
        ensures
            final(self)@ == old(self)@.eor(opcode.address_mode),
            final(self).cpu.flag(StatusFlag::Zero) == (final(self).cpu.accumulator == 0),
            final(self).cpu.flag(StatusFlag::Negative) == (final(self).cpu.accumulator >= 0x80),
    {
        let value = self.operand(&opcode.address_mode);
        let result = self.cpu.accumulator ^ value;
        self.cpu.accumulator = result;
        self.cpu.update_zero_and_negative_flags(result);
    }

    /// Adds `value` and the carry to the accumulator, with carry out of the
    /// ninth bit and signed overflow in the overflow flag.
    fn add_with_carry(&mut self, value: u8)
        ensures
            final(self)@ == old(self)@.add_with_carry(value),
            final(self).cpu.accumulator == (old(self).cpu.accumulator + value + old(
                self,
            ).cpu.carry()) % 0x100,
            final(self).cpu.flag(StatusFlag::Carry) == (old(self).cpu.accumulator + value + old(
                self,
            ).cpu.carry() > 0xFF),
            final(self).cpu.flag(StatusFlag::Overflow) == !(-128 <= signed(
                old(self).cpu.accumulator,
            ) + signed(value) + old(self).cpu.carry() <= 127),
    {
        proof {
            law_add_with_carry(self@, value);
        }
        let a = self.cpu.accumulator;
        let carry_in: u16 = if self.cpu.has_flag(&StatusFlag::Carry) {
            1
        } else {
            0
        };
        let sum: u16 = a as u16 + value as u16 + carry_in;
        let result = low_of(sum);
        let overflow = ((a ^ result) & (value ^ result) & 0x80) != 0;
        self.cpu.update_flag(&StatusFlag::Carry, sum > 0xFF);
        self.cpu.update_flag(&StatusFlag::Overflow, overflow);
        self.cpu.accumulator = result;
        self.cpu.update_zero_and_negative_flags(result);
    }

    /// `ADC`: adds the operand and the carry to the accumulator.
    fn adc(&mut self, opcode: &OpCode)
        requires
            opcode.address_mode.has_address(),
        ensures
            final(self)@ == old(self)@.adc(opcode.address_mode),
    {
        let value = self.operand(&opcode.address_mode);
        self.add_with_carry(value);
    }

    /// `SBC`: subtracts the operand and the borrow from the accumulator, by
    /// adding the operand's complement.
    fn sbc(&mut self, opcode: &OpCode)
        requires
            opcode.address_mode.has_address(),
        ensures
            final(self)@ == old(self)@.sbc(opcode.address_mode),
    {
        let value = self.operand(&opcode.address_mode);
        proof {
            assert(value ^ 0xFF == 0xFF - value) by (bit_vector);
        }
        self.add_with_carry(value ^ 0xFF);
    }

    /// `INC`: raises the operand in memory by one, wrapping.
    fn inc(&mut self, opcode: &OpCode)
        requires
            opcode.address_mode.has_address(),
        ensures
            final(self)@ == old(self)@.inc(opcode.address_mode),
            final(self).cpu.flag(StatusFlag::Zero) == (final(self)@.read8(
                old(self)@.address(opcode.address_mode),
            ) == 0),
            final(self).cpu.flag(StatusFlag::Negative) == (final(self)@.read8(
                old(self)@.address(opcode.address_mode),
            ) >= 0x80),
    {
        let address = self.operand_address(&opcode.address_mode);
        let result = forward8(self.mem_read_8(address), 1);
        self.mem_write_8(address, result);
        self.cpu.update_zero_and_negative_flags(result);
    }

    /// `DEC`: lowers the operand in memory by one, wrapping.
    fn dec(&mut self, opcode: &OpCode)
        requires
            opcode.address_mode.has_address(),
        ensures
            final(self)@ == old(self)@.dec(opcode.address_mode),
            final(self).cpu.flag(StatusFlag::Zero) == (final(self)@.read8(
                old(self)@.address(opcode.address_mode),
            ) == 0),
            final(self).cpu.flag(StatusFlag::Negative) == (final(self)@.read8(
                old(self)@.address(opcode.address_mode),
            ) >= 0x80),
    {
        let address = self.operand_address(&opcode.address_mode);
        let result = back8(self.mem_read_8(address), 1);
        self.mem_write_8(address, result);
        self.cpu.update_zero_and_negative_flags(result);
    }

    /// `INX`: raises X by one, wrapping.
    fn inx(&mut self)
        ensures
            final(self)@ == old(self)@.inx(),
            final(self).cpu.flag(StatusFlag::Zero) == (final(self).cpu.register_x == 0),
            final(self).cpu.flag(StatusFlag::Negative) == (final(self).cpu.register_x >= 0x80),
    {
        let result = forward8(self.cpu.register_x, 1);
        self.cpu.register_x = result;
        self.cpu.update_zero_and_negative_flags(result);
    }

    /// `INY`: raises Y by one, wrapping.
    fn iny(&mut self)
        ensures
            final(self)@ == old(self)@.iny(),
            final(self).cpu.flag(StatusFlag::Zero) == (final(self).cpu.register_y == 0),
            final(self).cpu.flag(StatusFlag::Negative) == (final(self).cpu.register_y >= 0x80),
    {
        let result = forward8(self.cpu.register_y, 1);
        self.cpu.register_y = result;
        self.cpu.update_zero_and_negative_flags(result);
    }

    /// `DEX`: lowers X by one, wrapping.
    fn dex(&mut self)
        ensures
            final(self)@ == old(self)@.dex(),
            final(self).cpu.flag(StatusFlag::Zero) == (final(self).cpu.register_x == 0),
            final(self).cpu.flag(StatusFlag::Negative) == (final(self).cpu.register_x >= 0x80),
    {
        let result = back8(self.cpu.register_x, 1);
        self.cpu.register_x = result;
        self.cpu.update_zero_and_negative_flags(result);
    }

    /// `DEY`: lowers Y by one, wrapping.
    fn dey(&mut self)
        ensures
            final(self)@ == old(self)@.dey(),
            final(self).cpu.flag(StatusFlag::Zero) == (final(self).cpu.register_y == 0),
            final(self).cpu.flag(StatusFlag::Negative) == (final(self).cpu.register_y >= 0x80),
    {
        let result = back8(self.cpu.register_y, 1);
        self.cpu.register_y = result;
        self.cpu.update_zero_and_negative_flags(result);
    }

    /// Compares `register` with `value`: carry where the register is not
    /// below the value, zero and negative from the wrapped difference.
    fn compare(&mut self, register: u8, value: u8)
        ensures
            final(self)@ == old(self)@.compare(register, value),
            final(self).cpu.flag(StatusFlag::Carry) == (register >= value),
            final(self).cpu.flag(StatusFlag::Zero) == (register == value),
    {
        let difference = back8(register, value);
        self.cpu.update_flag(&StatusFlag::Carry, register >= value);
        self.cpu.update_zero_and_negative_flags(difference);
    }

    /// `CMP`: compares the accumulator with the operand.
    fn cmp(&mut self, opcode: &OpCode)
        requires
            opcode.address_mode.has_address(),
        ensures
            final(self)@ == old(self)@.cmp(opcode.address_mode),
            final(self).cpu.flag(StatusFlag::Carry) == (old(self).cpu.accumulator >= old(self)@.operand(
                opcode.address_mode,
            )),
            final(self).cpu.flag(StatusFlag::Zero) == (old(self).cpu.accumulator == old(self)@.operand(
                opcode.address_mode,
            )),
    {
        let value = self.operand(&opcode.address_mode);
        let register = self.cpu.accumulator;
        self.compare(register, value);
    }

    /// `CPX`: compares X with the operand.
    fn cpx(&mut self, opcode: &OpCode)
        requires
            opcode.address_mode.has_address(),
        ensures
            final(self)@ == old(self)@.cpx(opcode.address_mode),
            final(self).cpu.flag(StatusFlag::Carry) == (old(self).cpu.register_x >= old(self)@.operand(
                opcode.address_mode,
            )),
            final(self).cpu.flag(StatusFlag::Zero) == (old(self).cpu.register_x == old(self)@.operand(
                opcode.address_mode,
            )),
    {
        let value = self.operand(&opcode.address_mode);
        let register = self.cpu.register_x;
        self.compare(register, value);
    }

    /// `CPY`: compares Y with the operand.
    fn cpy(&mut self, opcode: &OpCode)
        requires
            opcode.address_mode.has_address(),
        ensures
            final(self)@ == old(self)@.cpy(opcode.address_mode),
            final(self).cpu.flag(StatusFlag::Carry) == (old(self).cpu.register_y >= old(self)@.operand(
                opcode.address_mode,
            )),
            final(self).cpu.flag(StatusFlag::Zero) == (old(self).cpu.register_y == old(self)@.operand(
                opcode.address_mode,
            )),
    {
        let value = self.operand(&opcode.address_mode);
        let register = self.cpu.register_y;
        self.compare(register, value);
    }

    /// `BIT`: zero where the accumulator and the operand share no bit,
    /// negative and overflow from bits 7 and 6 of the operand.
    fn bit(&mut self, opcode: &OpCode)
        requires
            opcode.address_mode.has_address(),
        ensures
            final(self)@ == old(self)@.bit(opcode.address_mode),
    {
        let value = self.operand(&opcode.address_mode);
        self.cpu.update_flag(&StatusFlag::Zero, self.cpu.accumulator & value == 0);
        self.cpu.update_flag(&StatusFlag::Negative, value & 0x80 != 0);
        self.cpu.update_flag(&StatusFlag::Overflow, value & 0x40 != 0);
    }

    /// `ASL`: shifts the target left by one bit; bit 7 goes to the carry.
    fn asl(&mut self, opcode: &OpCode)
        requires
            opcode.address_mode.has_address() || opcode.address_mode is Accumulator,
        ensures
            final(self)@ == old(self)@.asl(opcode.address_mode),
            final(self).cpu.flag(StatusFlag::Zero) == (modified_byte(
                old(self)@,
                final(self)@,
                opcode.address_mode,
            ) == 0),
            final(self).cpu.flag(StatusFlag::Negative) == (modified_byte(
                old(self)@,
                final(self)@,
                opcode.address_mode,
            ) >= 0x80),
    {
        let value = self.target(&opcode.address_mode);
        let result = value << 1;
        proof {
            assert(value << 1 == (value * 2) % 0x100) by (bit_vector);
            assert((value & 0x80 != 0) == (value >= 0x80)) by (bit_vector);
        }
        self.store_target(&opcode.address_mode, result);
        self.cpu.update_flag(&StatusFlag::Carry, value & 0x80 != 0);
        self.cpu.update_zero_and_negative_flags(result);
    }

    /// `LSR`: shifts the target right by one bit; bit 0 goes to the carry.
    fn lsr(&mut self, opcode: &OpCode)
        requires
            opcode.address_mode.has_address() || opcode.address_mode is Accumulator,
        ensures
            final(self)@ == old(self)@.lsr(opcode.address_mode),
            !final(self).cpu.flag(StatusFlag::Negative),
            final(self).cpu.flag(StatusFlag::Zero) == (modified_byte(
                old(self)@,
                final(self)@,
                opcode.address_mode,
            ) == 0),
            final(self).cpu.flag(StatusFlag::Negative) == (modified_byte(
                old(self)@,
                final(self)@,
                opcode.address_mode,
            ) >= 0x80),
    {
        let value = self.target(&opcode.address_mode);
        let result = value >> 1;
        proof {
            assert(value >> 1 == value / 2) by (bit_vector);
            assert((value & 1 == 1) == (value % 2 == 1)) by (bit_vector);
            assert((value >> 1) & 0x80 == 0) by (bit_vector);
        }
        self.store_target(&opcode.address_mode, result);
        self.cpu.update_flag(&StatusFlag::Carry, value & 1 == 1);
        self.cpu.update_zero_and_negative_flags(result);
    }

    /// `ROL`: rotates the target left through the carry.
    fn rol(&mut self, opcode: &OpCode)
        requires
            opcode.address_mode.has_address() || opcode.address_mode is Accumulator,
        ensures
            final(self)@ == old(self)@.rol(opcode.address_mode),
            final(self).cpu.flag(StatusFlag::Zero) == (modified_byte(
                old(self)@,
                final(self)@,
                opcode.address_mode,
            ) == 0),
            final(self).cpu.flag(StatusFlag::Negative) == (modified_byte(
                old(self)@,
                final(self)@,
                opcode.address_mode,
            ) >= 0x80),
    {
        let value = self.target(&opcode.address_mode);
        let carry_in: u8 = if self.cpu.has_flag(&StatusFlag::Carry) {
            1
        } else {
            0
        };
        let result = (value << 1) | carry_in;
        proof {
            assert(carry_in <= 1 ==> (value << 1) | carry_in == (value * 2 + carry_in) % 0x100)
                by (bit_vector);
            assert((value & 0x80 != 0) == (value >= 0x80)) by (bit_vector);
        }
        self.store_target(&opcode.address_mode, result);
        self.cpu.update_flag(&StatusFlag::Carry, value & 0x80 != 0);
        self.cpu.update_zero_and_negative_flags(result);
    }

    /// `ROR`: rotates the target right through the carry.
    fn ror(&mut self, opcode: &OpCode)
        requires
            opcode.address_mode.has_address() || opcode.address_mode is Accumulator,
        ensures
            final(self)@ == old(self)@.ror(opcode.address_mode),
            final(self).cpu.flag(StatusFlag::Zero) == (modified_byte(
                old(self)@,
                final(self)@,
                opcode.address_mode,
            ) == 0),
            final(self).cpu.flag(StatusFlag::Negative) == (modified_byte(
                old(self)@,
                final(self)@,
                opcode.address_mode,
            ) >= 0x80),
    {
        let value = self.target(&opcode.address_mode);
        let carry_in: u8 = if self.cpu.has_flag(&StatusFlag::Carry) {
            1
        } else {
            0
        };
        let result = (value >> 1) | (carry_in << 7);
        proof {
            assert(carry_in <= 1 ==> (value >> 1) | (carry_in << 7) == value / 2 + 0x80 * carry_in)
                by (bit_vector);
            assert((value & 1 == 1) == (value % 2 == 1)) by (bit_vector);
        }
        self.store_target(&opcode.address_mode, result);
        self.cpu.update_flag(&StatusFlag::Carry, value & 1 == 1);
        self.cpu.update_zero_and_negative_flags(result);
    }

    /// `JMP`: continues at the operand address.
    fn jmp(&mut self, opcode: &OpCode)
        requires
            opcode.address_mode.has_address(),
        ensures
            final(self)@ == old(self)@.jmp(opcode.address_mode),
    {
        self.cpu.program_counter = self.operand_address(&opcode.address_mode);
    }

    /// `JSR`: pushes the address of its own last byte, high byte first, and
    /// continues at the operand address.
    fn jsr(&mut self, opcode: &OpCode)
        requires
            opcode.address_mode.has_address(),
        ensures
            final(self)@ == old(self)@.jsr(opcode.address_mode),
    {
        let destination = self.operand_address(&opcode.address_mode);
        let last = forward16(self.cpu.program_counter, 1);
        self.push_stack(high_of(last));
        self.push_stack(low_of(last));
        self.cpu.program_counter = destination;
    }

    /// `RTS`: pulls an address, low byte first, and continues after it.
    fn rts(&mut self)
        ensures
            final(self)@ == old(self)@.rts(),
    {
        let low = self.pop_stack();
        let high = self.pop_stack();
        self.cpu.program_counter = forward16(make_word(low, high), 1);
    }

    /// `RTI`: pulls the status byte and an address, and continues there.
    fn rti(&mut self)
        ensures
            final(self)@ == old(self)@.rti(),
    {
        self.plp();
        let low = self.pop_stack();
        let high = self.pop_stack();
        self.cpu.program_counter = make_word(low, high);
    }

    /// `BRK`: pushes the address after its padding byte and the status byte,
    /// disables interrupts and continues at the break vector.
    fn brk(&mut self)
        ensures
            final(self)@ == old(self)@.brk(),
    {
        let resume = forward16(self.cpu.program_counter, 1);
        self.push_stack(high_of(resume));
        self.push_stack(low_of(resume));
        self.php();
        self.cpu.enable_flag(&StatusFlag::Interrupt);
        self.cpu.program_counter = self.mem_read_16(BREAK_VECTOR);
    }

    /// Moves the program counter past the offset byte of a branch, and on by
    /// the signed offset where the branch is taken.
    fn branch(&mut self, taken: bool)
        ensures
            final(self)@ == old(self)@.branch(taken),
    {
        let offset = self.mem_read_8(self.cpu.program_counter);
        let next = forward16(self.cpu.program_counter, 1);
        if !taken {
            self.cpu.program_counter = next;
        } else if offset >= 0x80 {
            self.cpu.program_counter = back16(next, 0x100 - offset as u16);
        } else {
            self.cpu.program_counter = forward16(next, offset as u16);
        }
    }

    /// `SEC`: sets the carry flag.
    fn sec(&mut self)
        ensures
            final(self)@ == old(self)@.with(StatusFlag::Carry, true),
    {
        self.cpu.enable_flag(&StatusFlag::Carry);
    }

    /// `SED`: sets the decimal flag, which nothing reads.
    fn sed(&mut self)
        ensures
            final(self)@ == old(self)@.with(StatusFlag::Decimal, true),
    {
        self.cpu.enable_flag(&StatusFlag::Decimal);
    }

    /// `SEI`: sets the interrupt-disable flag.
    fn sei(&mut self)
        ensures
            final(self)@ == old(self)@.with(StatusFlag::Interrupt, true),
    {
        self.cpu.enable_flag(&StatusFlag::Interrupt);
    }

    /// `CLC`: clears the carry flag.
    fn clc(&mut self)
        ensures
            final(self)@ == old(self)@.with(StatusFlag::Carry, false),
    {
        self.cpu.disable_flag(&StatusFlag::Carry);
    }

    /// `CLD`: clears the decimal flag.
    fn cld(&mut self)
        ensures
            final(self)@ == old(self)@.with(StatusFlag::Decimal, false),
    {
        self.cpu.disable_flag(&StatusFlag::Decimal);
    }

    /// `CLI`: clears the interrupt-disable flag.
    fn cli(&mut self)
        ensures
            final(self)@ == old(self)@.with(StatusFlag::Interrupt, false),
    {
        self.cpu.disable_flag(&StatusFlag::Interrupt);
    }

    /// `CLV`: clears the overflow flag.
    fn clv(&mut self)
        ensures
            final(self)@ == old(self)@.with(StatusFlag::Overflow, false),
    {
        self.cpu.disable_flag(&StatusFlag::Overflow);
    }

    /// `BMI`: branches where the negative flag is set.
    fn bmi(&mut self)
        ensures
            final(self)@ == old(self)@.branch(old(self).cpu.flag(StatusFlag::Negative)),
    {
        let taken = self.cpu.has_flag(&StatusFlag::Negative);
        self.branch(taken);
    }

    /// `BPL`: branches where the negative flag is clear.
    fn bpl(&mut self)
        ensures
            final(self)@ == old(self)@.branch(!old(self).cpu.flag(StatusFlag::Negative)),
    {
        let taken = !self.cpu.has_flag(&StatusFlag::Negative);
        self.branch(taken);
    }

    /// `BVS`: branches where the overflow flag is set.
    fn bvs(&mut self)
        ensures
            final(self)@ == old(self)@.branch(old(self).cpu.flag(StatusFlag::Overflow)),
    {
        let taken = self.cpu.has_flag(&StatusFlag::Overflow);
        self.branch(taken);
    }

    /// `BVC`: branches where the overflow flag is clear.
    fn bvc(&mut self)
        ensures
            final(self)@ == old(self)@.branch(!old(self).cpu.flag(StatusFlag::Overflow)),
    {
        let taken = !self.cpu.has_flag(&StatusFlag::Overflow);
        self.branch(taken);
    }

    /// `BCS`: branches where the carry flag is set.
    fn bcs(&mut self)
        ensures
            final(self)@ == old(self)@.branch(old(self).cpu.flag(StatusFlag::Carry)),
    {
        let taken = self.cpu.has_flag(&StatusFlag::Carry);
        self.branch(taken);
    }

    /// `BCC`: branches where the carry flag is clear.
    fn bcc(&mut self)
        ensures
            final(self)@ == old(self)@.branch(!old(self).cpu.flag(StatusFlag::Carry)),
    {
        let taken = !self.cpu.has_flag(&StatusFlag::Carry);
        self.branch(taken);
    }

    /// `BEQ`: branches where the zero flag is set.
    fn beq(&mut self)
        ensures
            final(self)@ == old(self)@.branch(old(self).cpu.flag(StatusFlag::Zero)),
    {
        let taken = self.cpu.has_flag(&StatusFlag::Zero);
        self.branch(taken);
    }

    /// `BNE`: branches where the zero flag is clear.
    fn bne(&mut self)
        ensures
            final(self)@ == old(self)@.branch(!old(self).cpu.flag(StatusFlag::Zero)),
    {
        let taken = !self.cpu.has_flag(&StatusFlag::Zero);
        self.branch(taken);
    }

    /// Runs the body of the instruction `opcode`, with the program counter
    /// at the byte after the opcode byte.
    fn execute(&mut self, opcode: &OpCode)
        requires
            opcode.instruction.admits(opcode.address_mode),
        ensures
            final(self)@ == old(self)@.execute(*opcode),
    {
        match opcode.instruction {
            Instruction::Brk => self.brk(),
            Instruction::Nop => {},
            Instruction::Lda => self.lda(opcode),
            Instruction::Ldx => self.ldx(opcode),
            Instruction::Ldy => self.ldy(opcode),
            Instruction::Sta => self.sta(opcode),
            Instruction::Stx => self.stx(opcode),
            Instruction::Sty => self.sty(opcode),
            Instruction::Tay => self.tay(),
            Instruction::Tya => self.tya(),
            Instruction::Tax => self.tax(),
            Instruction::Txa => self.txa(),
            Instruction::Txs => self.txs(),
            Instruction::Tsx => self.tsx(),
            Instruction::Adc => self.adc(opcode),
            Instruction::And => self.and(opcode),
            Instruction::Sbc => self.sbc(opcode),
            Instruction::Inc => self.inc(opcode),
            Instruction::Dec => self.dec(opcode),
            Instruction::Iny => self.iny(),
            Instruction::Inx => self.inx(),
            Instruction::Dey => self.dey(),
            Instruction::Dex => self.dex(),
            Instruction::Asl => self.asl(opcode),
            Instruction::Lsr => self.lsr(opcode),
            Instruction::Cmp => self.cmp(opcode),
            Instruction::Cpx => self.cpx(opcode),
            Instruction::Cpy => self.cpy(opcode),
            Instruction::Eor => self.eor(opcode),
            Instruction::Ror => self.ror(opcode),
            Instruction::Ora => self.ora(opcode),
            Instruction::Rol => self.rol(opcode),
            Instruction::Jmp => self.jmp(opcode),
            Instruction::Jsr => self.jsr(opcode),
            Instruction::Rts => self.rts(),
            Instruction::Rti => self.rti(),
            Instruction::Bmi => self.bmi(),
            Instruction::Bpl => self.bpl(),
            Instruction::Bvs => self.bvs(),
            Instruction::Bvc => self.bvc(),
            Instruction::Bcs => self.bcs(),
            Instruction::Bcc => self.bcc(),
            Instruction::Beq => self.beq(),
            Instruction::Bne => self.bne(),
            Instruction::Pha => self.pha(),
            Instruction::Php => self.php(),
            Instruction::Pla => self.pla(),
            Instruction::Plp => self.plp(),
            Instruction::Sec => self.sec(),
            Instruction::Clc => self.clc(),
            Instruction::Clv => self.clv(),
            Instruction::Sei => self.sei(),
            Instruction::Cli => self.cli(),
            Instruction::Sed => self.sed(),
            Instruction::Cld => self.cld(),
            Instruction::Bit => self.bit(opcode),
        }
    }

    /// Moves the program counter past the operand bytes of an instruction of
    /// `bytes` bytes, unless the instruction body moved it away from
    /// `current_pc`, the address after the opcode byte.
    fn update_pc(&mut self, current_pc: u16, bytes: u8)
        requires
            1 <= bytes,
        ensures
            final(self)@ == old(self)@.advance(current_pc, bytes),
    {
        if current_pc == self.cpu.program_counter {
            self.cpu.program_counter = forward16(current_pc, widen(bytes - 1));
        }
    }

    /// Executes the instruction at the program counter.
    ///
    /// Returns whether it was `BRK`. Where the byte at the program counter
    /// is no official opcode, reports the byte and its address; the program
    /// counter then stands at the byte after it, and nothing else changed.
    pub fn step(&mut self) -> (result: Result<bool, CpuError>)
        ensures
            match old(self)@.fetch() {
                Some(opcode) => final(self)@ == old(self)@.step() && result == Ok::<bool, CpuError>(
                    opcode.instruction is Brk,
                ),
                None => final(self)@ == old(self)@.fetched() && result == Err::<bool, CpuError>(
                    old(self)@.fault(),
                ),
            },
    {
        let pc = self.cpu.program_counter;
        let code = self.mem_read_8(pc);
        let current_pc = forward16(pc, 1);
        self.cpu.program_counter = current_pc;
        match OpCode::from_byte(code) {
            None => Err(CpuError::UnsupportedOpcode { byte: code, pc }),
            Some(opcode) => {
                self.execute(&opcode);
                self.update_pc(current_pc, opcode.bytes);
                Ok(matches!(opcode.instruction, Instruction::Brk))
            },
        }
    }

    /// Executes instructions until a `BRK` has run, a byte that is no
    /// official opcode is met, or `budget` instructions have run.
    ///
    /// Returns `Ok(true)` after a `BRK` and `Ok(false)` with the budget used
    /// up.
    pub fn run_steps(&mut self, budget: u64) -> (result: Result<bool, CpuError>)
        ensures
            final(self)@ == old(self)@.run(budget as nat),
            result == old(self)@.run_result(budget as nat),
    {
        let mut remaining = budget;
        while remaining > 0
            invariant
                self@.run(remaining as nat) == old(self)@.run(budget as nat),
                self@.run_result(remaining as nat) == old(self)@.run_result(budget as nat),
            decreases remaining,
        {
            match self.step() {
                Err(error) => {
                    return Err(error);
                },
                Ok(true) => {
                    return Ok(true);
                },
                Ok(false) => {},
            }
            remaining -= 1;
        }
        Ok(false)
    }

    /// Executes instructions until a `BRK` has run or a byte that is no
    /// official opcode is met.
    ///
    /// A program that never reaches either is given up after `u64::MAX`
    /// instructions, with `Ok(false)`.
    pub fn run(&mut self) -> (result: Result<bool, CpuError>)
        ensures
            final(self)@ == old(self)@.run(u64::MAX as nat),
            result == old(self)@.run_result(u64::MAX as nat),
    {
        self.run_steps(u64::MAX)
    }

    /// Resets the machine and runs it, from `$0600` where
    /// `reset_program_counter` holds and from the reset vector otherwise.
    pub fn run_with_reset_pc(&mut self, reset_program_counter: bool) -> (result: Result<
        bool,
        CpuError,
    >)
        ensures
            final(self)@ == old(self)@.start(reset_program_counter).run(u64::MAX as nat),
            result == old(self)@.start(reset_program_counter).run_result(u64::MAX as nat),
    {
        self.reset();
        if reset_program_counter {
            self.cpu.program_counter = PROGRAM_START;
        }
        self.run()
    }
}

} // verus!
