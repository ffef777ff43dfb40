//! The machine as a mathematical object: registers and a memory image, and
//! what every instruction makes of them.

use crate::cpu::{Cpu, PROGRAM_START};
use crate::error::CpuError;
use crate::instructions::{decode, AddressingMode, Instruction, OpCode};
use crate::status::{with_flag, StatusFlag};
use vstd::prelude::*;

verus! {

/// Number of bytes in the address space.
pub const MEMORY_SIZE: usize = 0x10000;

/// First address of the stack page.
pub const STACK_START: u16 = 0x0100;

/// Address of the reset vector.
pub const RESET_VECTOR: u16 = 0xFFFC;

/// Address of the vector that `BRK` jumps through.
pub const BREAK_VECTOR: u16 = 0xFFFE;

/// The byte `value + delta`, wrapped to eight bits.
pub open spec fn add8(value: u8, delta: int) -> u8 {
    ((value + delta) % 0x100) as u8
}

/// The address `address + delta`, wrapped to sixteen bits.
pub open spec fn add16(address: u16, delta: int) -> u16 {
    ((address + delta) % 0x10000) as u16
}

/// The sixteen-bit word with the given low and high bytes.
pub open spec fn word(low: u8, high: u8) -> u16 {
    (high * 0x100 + low) as u16
}

/// The low byte of a word.
pub open spec fn low_byte(value: u16) -> u8 {
    (value % 0x100) as u8
}

/// The high byte of a word.
pub open spec fn high_byte(value: u16) -> u8 {
    (value / 0x100) as u8
}

/// A byte read as a two's complement number.
pub open spec fn signed(value: u8) -> int {
    if value >= 0x80 {
        value - 0x100
    } else {
        value as int
    }
}

/// The address after `pointer` within the same 256-byte page: the low byte
/// wraps and the high byte never carries.
pub open spec fn next_in_page(pointer: u16) -> u16 {
    word(add8(low_byte(pointer), 1), high_byte(pointer))
}

/// The address of the stack slot that the stack pointer `sp` designates.
pub open spec fn stack_address(sp: u8) -> u16 {
    (STACK_START + sp) as u16
}

/// The state of the machine: the registers and the 64 KiB memory image.
pub struct Machine {
    pub cpu: Cpu,
    pub mem: Seq<u8>,
}

impl Machine {
    /// The memory image covers the whole address space.
    pub open spec fn wf(self) -> bool {
        self.mem.len() == MEMORY_SIZE
    }

    /// This machine with other registers.
    pub open spec fn with_cpu(self, cpu: Cpu) -> Machine {
        Machine { cpu, mem: self.mem }
    }

    /// This machine with another program counter.
    pub open spec fn at(self, pc: u16) -> Machine {
        self.with_cpu(Cpu { program_counter: pc, ..self.cpu })
    }

    /// The byte at `address`.
    pub open spec fn read8(self, address: u16) -> u8 {
        self.mem[address as int]
    }

    /// The little-endian word at `address`; the second byte is taken from
    /// address 0 when `address` is the last one.
    pub open spec fn read16(self, address: u16) -> u16 {
        word(self.read8(address), self.read8(add16(address, 1)))
    }

    /// This machine with `data` stored at `address`.
    pub open spec fn write8(self, address: u16, data: u8) -> Machine {
        Machine { cpu: self.cpu, mem: self.mem.update(address as int, data) }
    }

    /// This machine with the word `data` stored at `address`, low byte first.
    pub open spec fn write16(self, address: u16, data: u16) -> Machine {
        self.write8(address, low_byte(data)).write8(add16(address, 1), high_byte(data))
    }

    /// This machine after `data` was pushed: stored at the stack slot, and
    /// the stack pointer moved down by one, wrapping.
    pub open spec fn push(self, data: u8) -> Machine {
        let sp = self.cpu.stack_pointer;
        self.write8(stack_address(sp), data).with_cpu(
            Cpu { stack_pointer: add8(sp, -1), ..self.cpu },
        )
    }

    /// This machine after one byte was pulled: the stack pointer moved up by
    /// one, wrapping. The byte pulled is `self.pull().top()`.
    pub open spec fn pull(self) -> Machine {
        self.with_cpu(Cpu { stack_pointer: add8(self.cpu.stack_pointer, 1), ..self.cpu })
    }

    /// The byte at the stack slot that the stack pointer designates.
    pub open spec fn top(self) -> u8 {
        self.read8(stack_address(self.cpu.stack_pointer))
    }

    /// The effective address of the operand under `mode`, with the program
    /// counter at the first operand byte; `None` for the modes that
    /// designate no memory location.
    pub open spec fn effective_address(self, mode: AddressingMode) -> Option<u16> {
        let pc = self.cpu.program_counter;
        match mode {
            AddressingMode::Implied | AddressingMode::Accumulator | AddressingMode::Relative => None,
            AddressingMode::Immediate => Some(pc),
            AddressingMode::ZeroPage => Some(self.read8(pc) as u16),
            AddressingMode::ZeroPageX => Some(add8(self.read8(pc), self.cpu.register_x as int) as u16),
            AddressingMode::ZeroPageY => Some(add8(self.read8(pc), self.cpu.register_y as int) as u16),
            AddressingMode::Absolute => Some(self.read16(pc)),
            AddressingMode::AbsoluteX => Some(add16(self.read16(pc), self.cpu.register_x as int)),
            AddressingMode::AbsoluteY => Some(add16(self.read16(pc), self.cpu.register_y as int)),
            AddressingMode::Indirect => {
                let pointer = self.read16(pc);
                Some(word(self.read8(pointer), self.read8(next_in_page(pointer))))
            },
            AddressingMode::IndexedIndirectX => {
                let zero_page = add8(self.read8(pc), self.cpu.register_x as int);
                Some(word(self.read8(zero_page as u16), self.read8(add8(zero_page, 1) as u16)))
            },
            AddressingMode::IndirectIndexedY => {
                let zero_page = self.read8(pc);
                let pointer = word(
                    self.read8(zero_page as u16),
                    self.read8(add8(zero_page, 1) as u16),
                );
                Some(add16(pointer, self.cpu.register_y as int))
            },
        }
    }

    /// The address that an instruction with a memory operand works on.
    pub open spec fn address(self, mode: AddressingMode) -> u16 {
        self.effective_address(mode).unwrap()
    }

    /// The operand byte of an instruction that reads memory.
    pub open spec fn operand(self, mode: AddressingMode) -> u8 {
        self.read8(self.address(mode))
    }

    /// The byte a shift or rotate works on: the accumulator in accumulator
    /// mode, the operand in memory otherwise.
    pub open spec fn target(self, mode: AddressingMode) -> u8 {
        if mode is Accumulator {
            self.cpu.accumulator
        } else {
            self.operand(mode)
        }
    }

    /// This machine after `result` was stored where a shift or rotate found
    /// its operand.
    pub open spec fn store_target(self, mode: AddressingMode, result: u8) -> Machine {
        if mode is Accumulator {
            self.with_cpu(Cpu { accumulator: result, ..self.cpu })
        } else {
            self.write8(self.address(mode), result)
        }
    }

    /// This machine with the zero and negative flags describing `value`.
    pub open spec fn with_zn(self, value: u8) -> Machine {
        self.with_cpu(self.cpu.with_zn(value))
    }

    /// This machine with `flag` forced to `on`.
    pub open spec fn with(self, flag: StatusFlag, on: bool) -> Machine {
        self.with_cpu(self.cpu.with(flag, on))
    }

    /// `LDA` loads the accumulator from the operand.
    pub open spec fn lda(self, mode: AddressingMode) -> Machine {
        self.with_cpu(self.cpu.load_a(self.operand(mode)))
    }

    /// `LDX` loads X from the operand.
    pub open spec fn ldx(self, mode: AddressingMode) -> Machine {
        self.with_cpu(self.cpu.load_x(self.operand(mode)))
    }

    /// `LDY` loads Y from the operand.
    pub open spec fn ldy(self, mode: AddressingMode) -> Machine {
        self.with_cpu(self.cpu.load_y(self.operand(mode)))
    }

    /// `STA` stores the accumulator at the operand address; no flag changes.
    pub open spec fn sta(self, mode: AddressingMode) -> Machine {
        self.write8(self.address(mode), self.cpu.accumulator)
    }

    /// `STX` stores X at the operand address; no flag changes.
    pub open spec fn stx(self, mode: AddressingMode) -> Machine {
        self.write8(self.address(mode), self.cpu.register_x)
    }

    /// `STY` stores Y at the operand address; no flag changes.
    pub open spec fn sty(self, mode: AddressingMode) -> Machine {
        self.write8(self.address(mode), self.cpu.register_y)
    }

    /// `TAX` copies the accumulator to X.
    pub open spec fn tax(self) -> Machine {
        self.with_cpu(self.cpu.load_x(self.cpu.accumulator))
    }

    /// `TAY` copies the accumulator to Y.
    pub open spec fn tay(self) -> Machine {
        self.with_cpu(self.cpu.load_y(self.cpu.accumulator))
    }

    /// `TXA` copies X to the accumulator.
    pub open spec fn txa(self) -> Machine {
        self.with_cpu(self.cpu.load_a(self.cpu.register_x))
    }

    /// `TYA` copies Y to the accumulator.
    pub open spec fn tya(self) -> Machine {
        self.with_cpu(self.cpu.load_a(self.cpu.register_y))
    }

    /// `TSX` copies the stack pointer to X.
    pub open spec fn tsx(self) -> Machine {
        self.with_cpu(self.cpu.load_x(self.cpu.stack_pointer))
    }

    /// `TXS` copies X to the stack pointer and touches no flag.
    pub open spec fn txs(self) -> Machine {
        self.with_cpu(Cpu { stack_pointer: self.cpu.register_x, ..self.cpu })
    }

    /// `PHA` pushes the accumulator.
    pub open spec fn pha(self) -> Machine {
        self.push(self.cpu.accumulator)
    }

    /// `PLA` pulls the accumulator.
    pub open spec fn pla(self) -> Machine {
        let pulled = self.pull();
        pulled.with_cpu(pulled.cpu.load_a(pulled.top()))
    }

    /// The status byte as `PHP` and `BRK` push it: break and constant set.
    pub open spec fn pushed_status(self) -> u8 {
        with_flag(with_flag(self.cpu.status, StatusFlag::Break, true), StatusFlag::Constant, true)
    }

    /// `PHP` pushes the status byte, with break and constant set in the copy.
    pub open spec fn php(self) -> Machine {
        self.push(self.pushed_status())
    }

    /// The status byte as `PLP` and `RTI` install it: what lies on the stack,
    /// with break cleared and constant set.
    pub open spec fn pulled_status(self) -> u8 {
        with_flag(with_flag(self.top(), StatusFlag::Break, false), StatusFlag::Constant, true)
    }

    /// `PLP` pulls the status byte.
    pub open spec fn plp(self) -> Machine {
        let pulled = self.pull();
        pulled.with_cpu(Cpu { status: pulled.pulled_status(), ..pulled.cpu })
    }

    /// `AND` keeps the bits that the accumulator and the operand share.
    pub open spec fn and(self, mode: AddressingMode) -> Machine {
        self.with_cpu(self.cpu.load_a(self.cpu.accumulator & self.operand(mode)))
    }

    /// `ORA` joins the bits of the accumulator and the operand.
    pub open spec fn ora(self, mode: AddressingMode) -> Machine {
        self.with_cpu(self.cpu.load_a(self.cpu.accumulator | self.operand(mode)))
    }

    /// `EOR` keeps the bits in which the accumulator and the operand differ.
    pub open spec fn eor(self, mode: AddressingMode) -> Machine {
        self.with_cpu(self.cpu.load_a(self.cpu.accumulator ^ self.operand(mode)))
    }

    /// This machine after `value` and the carry were added to the
    /// accumulator: carry out of the ninth bit of the sum, overflow where
    /// both addends differ in sign from the result.
    pub open spec fn add_with_carry(self, value: u8) -> Machine {
        let a = self.cpu.accumulator;
        let sum = a + value + self.cpu.carry();
        let result = (sum % 0x100) as u8;
        let overflow = ((a ^ result) & (value ^ result) & 0x80) != 0;
        let flagged = self.cpu.with(StatusFlag::Carry, sum > 0xFF).with(
            StatusFlag::Overflow,
            overflow,
        );
        self.with_cpu(flagged.load_a(result))
    }

    /// `ADC` adds the operand and the carry to the accumulator.
    pub open spec fn adc(self, mode: AddressingMode) -> Machine {
        self.add_with_carry(self.operand(mode))
    }

    /// `SBC` adds the one's complement of the operand.
    pub open spec fn sbc(self, mode: AddressingMode) -> Machine {
        self.add_with_carry((0xFF - self.operand(mode)) as u8)
    }

    /// `INC` raises the operand in memory by one, wrapping.
    pub open spec fn inc(self, mode: AddressingMode) -> Machine {
        let result = add8(self.operand(mode), 1);
        self.write8(self.address(mode), result).with_zn(result)
    }

    /// `DEC` lowers the operand in memory by one, wrapping.
    pub open spec fn dec(self, mode: AddressingMode) -> Machine {
        let result = add8(self.operand(mode), -1);
        self.write8(self.address(mode), result).with_zn(result)
    }

    /// `INX` raises X by one, wrapping.
    pub open spec fn inx(self) -> Machine {
        self.with_cpu(self.cpu.load_x(add8(self.cpu.register_x, 1)))
    }

    /// `INY` raises Y by one, wrapping.
    pub open spec fn iny(self) -> Machine {
        self.with_cpu(self.cpu.load_y(add8(self.cpu.register_y, 1)))
    }

    /// `DEX` lowers X by one, wrapping.
    pub open spec fn dex(self) -> Machine {
        self.with_cpu(self.cpu.load_x(add8(self.cpu.register_x, -1)))
    }

    /// `DEY` lowers Y by one, wrapping.
    pub open spec fn dey(self) -> Machine {
        self.with_cpu(self.cpu.load_y(add8(self.cpu.register_y, -1)))
    }

    /// This machine after `register` was compared with `value`: carry where
    /// the register is not below the value, zero and negative from the
    /// wrapped difference.
    pub open spec fn compare(self, register: u8, value: u8) -> Machine {
        self.with(StatusFlag::Carry, register >= value).with_zn(add8(register, -value))
    }

    /// `CMP` compares the accumulator with the operand.
    pub open spec fn cmp(self, mode: AddressingMode) -> Machine {
        self.compare(self.cpu.accumulator, self.operand(mode))
    }

    /// `CPX` compares X with the operand.
    pub open spec fn cpx(self, mode: AddressingMode) -> Machine {
        self.compare(self.cpu.register_x, self.operand(mode))
    }

    /// `CPY` compares Y with the operand.
    pub open spec fn cpy(self, mode: AddressingMode) -> Machine {
        self.compare(self.cpu.register_y, self.operand(mode))
    }

    /// `BIT` sets zero where the accumulator and the operand share no bit, and
    /// copies bits 7 and 6 of the operand to negative and overflow.
    pub open spec fn bit(self, mode: AddressingMode) -> Machine {
        let value = self.operand(mode);
        self.with(StatusFlag::Zero, self.cpu.accumulator & value == 0).with(
            StatusFlag::Negative,
            value & 0x80 != 0,
        ).with(StatusFlag::Overflow, value & 0x40 != 0)
    }

    /// `ASL` doubles the target; bit 7 goes to the carry.
    pub open spec fn asl(self, mode: AddressingMode) -> Machine {
        let value = self.target(mode);
        let result = ((value * 2) % 0x100) as u8;
        self.store_target(mode, result).with(StatusFlag::Carry, value >= 0x80).with_zn(result)
    }

    /// `LSR` halves the target; bit 0 goes to the carry.
    pub open spec fn lsr(self, mode: AddressingMode) -> Machine {
        let value = self.target(mode);
        let result = value / 2;
        self.store_target(mode, result).with(StatusFlag::Carry, value % 2 == 1).with_zn(result)
    }

    /// `ROL` doubles the target and adds the carry; bit 7 goes to the carry.
    pub open spec fn rol(self, mode: AddressingMode) -> Machine {
        let value = self.target(mode);
        let result = ((value * 2 + self.cpu.carry()) % 0x100) as u8;
        self.store_target(mode, result).with(StatusFlag::Carry, value >= 0x80).with_zn(result)
    }

    /// `ROR` halves the target and puts the carry in bit 7; bit 0 goes to the
    /// carry.
    pub open spec fn ror(self, mode: AddressingMode) -> Machine {
        let value = self.target(mode);
        let result = (value / 2 + 0x80 * self.cpu.carry()) as u8;
        self.store_target(mode, result).with(StatusFlag::Carry, value % 2 == 1).with_zn(result)
    }

    /// `JMP` continues at the operand address.
    pub open spec fn jmp(self, mode: AddressingMode) -> Machine {
        self.at(self.address(mode))
    }

    /// `JSR` pushes the address of its own last byte, high byte first, and
    /// jumps to the target.
    pub open spec fn jsr(self, mode: AddressingMode) -> Machine {
        let last = add16(self.cpu.program_counter, 1);
        self.push(high_byte(last)).push(low_byte(last)).at(self.address(mode))
    }

    /// `RTS` pulls an address, low byte first, and continues after it.
    pub open spec fn rts(self) -> Machine {
        let low = self.pull();
        let high = low.pull();
        high.at(add16(word(low.top(), high.top()), 1))
    }

    /// `RTI` pulls the status byte and then an address, low byte first, and
    /// continues at that address.
    pub open spec fn rti(self) -> Machine {
        let low = self.plp().pull();
        let high = low.pull();
        high.at(word(low.top(), high.top()))
    }

    /// `BRK` pushes the address after its padding byte and the status byte,
    /// disables interrupts and jumps through the break vector.
    pub open spec fn brk(self) -> Machine {
        let resume = add16(self.cpu.program_counter, 1);
        let pushed = self.push(high_byte(resume)).push(low_byte(resume)).php().with(
            StatusFlag::Interrupt,
            true,
        );
        pushed.at(pushed.read16(BREAK_VECTOR))
    }

    /// A branch instruction whose condition is `taken`: the program counter
    /// moves past the offset byte, and on by the signed offset if taken.
    pub open spec fn branch(self, taken: bool) -> Machine {
        let pc = self.cpu.program_counter;
        let next = add16(pc, 1);
        if taken {
            self.at(add16(next, signed(self.read8(pc))))
        } else {
            self.at(next)
        }
    }

    /// This machine after the body of the instruction `opcode` ran, with the
    /// program counter at the byte after the opcode byte before it.
    pub open spec fn execute(self, opcode: OpCode) -> Machine {
        let mode = opcode.address_mode;
        match opcode.instruction {
            Instruction::Brk => self.brk(),
            Instruction::Nop => self,
            Instruction::Lda => self.lda(mode),
            Instruction::Ldx => self.ldx(mode),
            Instruction::Ldy => self.ldy(mode),
            Instruction::Sta => self.sta(mode),
            Instruction::Stx => self.stx(mode),
            Instruction::Sty => self.sty(mode),
            Instruction::Tay => self.tay(),
            Instruction::Tya => self.tya(),
            Instruction::Tax => self.tax(),
            Instruction::Txa => self.txa(),
            Instruction::Txs => self.txs(),
            Instruction::Tsx => self.tsx(),
            Instruction::Adc => self.adc(mode),
            Instruction::And => self.and(mode),
            Instruction::Sbc => self.sbc(mode),
            Instruction::Inc => self.inc(mode),
            Instruction::Dec => self.dec(mode),
            Instruction::Iny => self.iny(),
            Instruction::Inx => self.inx(),
            Instruction::Dey => self.dey(),
            Instruction::Dex => self.dex(),
            Instruction::Asl => self.asl(mode),
            Instruction::Lsr => self.lsr(mode),
            Instruction::Cmp => self.cmp(mode),
            Instruction::Cpx => self.cpx(mode),
            Instruction::Cpy => self.cpy(mode),
            Instruction::Eor => self.eor(mode),
            Instruction::Ror => self.ror(mode),
            Instruction::Ora => self.ora(mode),
            Instruction::Rol => self.rol(mode),
            Instruction::Jmp => self.jmp(mode),
            Instruction::Jsr => self.jsr(mode),
            Instruction::Rts => self.rts(),
            Instruction::Rti => self.rti(),
            Instruction::Bmi => self.branch(self.cpu.flag(StatusFlag::Negative)),
            Instruction::Bpl => self.branch(!self.cpu.flag(StatusFlag::Negative)),
            Instruction::Bvs => self.branch(self.cpu.flag(StatusFlag::Overflow)),
            Instruction::Bvc => self.branch(!self.cpu.flag(StatusFlag::Overflow)),
            Instruction::Bcs => self.branch(self.cpu.flag(StatusFlag::Carry)),
            Instruction::Bcc => self.branch(!self.cpu.flag(StatusFlag::Carry)),
            Instruction::Beq => self.branch(self.cpu.flag(StatusFlag::Zero)),
            Instruction::Bne => self.branch(!self.cpu.flag(StatusFlag::Zero)),
            Instruction::Pha => self.pha(),
            Instruction::Php => self.php(),
            Instruction::Pla => self.pla(),
            Instruction::Plp => self.plp(),
            Instruction::Sec => self.with(StatusFlag::Carry, true),
            Instruction::Clc => self.with(StatusFlag::Carry, false),
            Instruction::Clv => self.with(StatusFlag::Overflow, false),
            Instruction::Sei => self.with(StatusFlag::Interrupt, true),
            Instruction::Cli => self.with(StatusFlag::Interrupt, false),
            Instruction::Sed => self.with(StatusFlag::Decimal, true),
            Instruction::Cld => self.with(StatusFlag::Decimal, false),
            Instruction::Bit => self.bit(mode),
        }
    }

    /// This machine with the program counter moved past the operand bytes,
    /// unless the instruction body left it somewhere else than at
    /// `pc_after_opcode`.
    pub open spec fn advance(self, pc_after_opcode: u16, bytes: u8) -> Machine {
        if self.cpu.program_counter == pc_after_opcode {
            self.at(add16(pc_after_opcode, bytes - 1))
        } else {
            self
        }
    }

    /// The table entry of the byte at the program counter.
    pub open spec fn fetch(self) -> Option<OpCode> {
        decode(self.read8(self.cpu.program_counter))
    }

    /// This machine after the opcode byte was fetched: the program counter
    /// stands at the byte after it.
    pub open spec fn fetched(self) -> Machine {
        self.at(add16(self.cpu.program_counter, 1))
    }

    /// This machine after the instruction at the program counter ran.
    /// Meaningful where `fetch` finds an official opcode.
    pub open spec fn step(self) -> Machine {
        let opcode = self.fetch().unwrap();
        let pc_after_opcode = add16(self.cpu.program_counter, 1);
        self.fetched().execute(opcode).advance(pc_after_opcode, opcode.bytes)
    }

    /// Whether the instruction at the program counter is `BRK`.
    pub open spec fn at_break(self) -> bool {
        self.fetch() matches Some(opcode) && opcode.instruction is Brk
    }

    /// The machine after at most `budget` instructions: execution stops early
    /// after a `BRK` has run, and after the fetch of a byte that is no
    /// official opcode.
    pub open spec fn run(self, budget: nat) -> Machine
        decreases budget,
    {
        if budget == 0 {
            self
        } else if self.fetch() is None {
            self.fetched()
        } else if self.at_break() {
            self.step()
        } else {
            self.step().run((budget - 1) as nat)
        }
    }

    /// The error that execution reports where the byte at the program
    /// counter is no official opcode: it names the byte and its address.
    pub open spec fn fault(self) -> CpuError {
        CpuError::UnsupportedOpcode {
            byte: self.read8(self.cpu.program_counter),
            pc: self.cpu.program_counter,
        }
    }

    /// How `run` ends: `Ok(true)` after a `BRK`, `Ok(false)` with the budget
    /// used up, an error after the fetch of a byte that is no official
    /// opcode.
    pub open spec fn run_result(self, budget: nat) -> Result<bool, CpuError>
        decreases budget,
    {
        if budget == 0 {
            Ok(false)
        } else if self.fetch() is None {
            Err(self.fault())
        } else if self.at_break() {
            Ok(true)
        } else {
            self.step().run_result((budget - 1) as nat)
        }
    }

    /// This machine with `data` copied into memory from address `start` on.
    pub open spec fn load_at(self, start: int, data: Seq<u8>) -> Machine {
        Machine {
            cpu: self.cpu,
            mem: Seq::new(
                self.mem.len(),
                |i: int|
                    if start <= i < start + data.len() {
                        data[i - start]
                    } else {
                        self.mem[i]
                    },
            ),
        }
    }

    /// This machine after a reset: registers cleared, status and stack
    /// pointer at their reset values, program counter from the reset vector.
    pub open spec fn reset(self) -> Machine {
        self.with_cpu(self.cpu.after_reset()).at(self.read16(RESET_VECTOR))
    }

    /// This machine reset and ready to run: at `$0600` where `raw_program`
    /// holds, at the address in the reset vector otherwise.
    pub open spec fn start(self, raw_program: bool) -> Machine {
        if raw_program {
            self.reset().at(PROGRAM_START)
        } else {
            self.reset()
        }
    }
}

/// The byte that a shift, rotate, increment or decrement left behind: in
/// the accumulator of `after` in accumulator mode, else in the memory of
/// `after` at the address that the operand had in `before`.
pub open spec fn modified_byte(before: Machine, after: Machine, mode: AddressingMode) -> u8 {
    if mode is Accumulator {
        after.cpu.accumulator
    } else {
        after.read8(before.address(mode))
    }
}

} // verus!
