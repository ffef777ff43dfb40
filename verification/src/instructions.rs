//! The opcode table: instruction kinds, addressing modes and the decoder.

use vstd::prelude::*;

verus! {

/// How an instruction finds its operand.
#[derive(Debug, Clone, Copy, PartialEq, Eq, Structural)]
pub enum AddressingMode {
    Implied,
    Accumulator,
    Immediate,
    Relative,
    ZeroPage,
    ZeroPageX,
    ZeroPageY,
    Absolute,
    AbsoluteX,
    AbsoluteY,
    Indirect,
    IndexedIndirectX,
    IndirectIndexedY,
}

impl AddressingMode {
    /// Number of operand bytes that follow the opcode byte.
    pub open spec fn operand_bytes(self) -> nat {
        match self {
            AddressingMode::Implied | AddressingMode::Accumulator => 0,
            AddressingMode::Absolute
            | AddressingMode::AbsoluteX
            | AddressingMode::AbsoluteY
            | AddressingMode::Indirect => 2,
            _ => 1,
        }
    }

    /// Whether the mode designates a memory location.
    pub open spec fn has_address(self) -> bool {
        !(self is Implied || self is Accumulator || self is Relative)
    }
}

/// The 56 official instruction kinds.
#[derive(Debug, Clone, Copy, PartialEq, Eq, Structural)]
pub enum Instruction {
    Brk,
    Nop,
    // Loads and stores
    Lda,
    Ldx,
    Ldy,
    Sta,
    Stx,
    Sty,
    // Register transfers
    Tay,
    Tya,
    Tax,
    Txa,
    Txs,
    Tsx,
    // Arithmetic, increments and shifts
    Adc,
    And,
    Sbc,
    Inc,
    Dec,
    Iny,
    Inx,
    Dey,
    Dex,
    Asl,
    Lsr,
    // Comparisons and logic
    Cmp,
    Cpx,
    Cpy,
    Eor,
    Ror,
    Ora,
    Rol,
    // Control flow and stack
    Jmp,
    Jsr,
    Rts,
    Rti,
    Bmi,
    Bpl,
    Bvs,
    Bvc,
    Bcs,
    Bcc,
    Beq,
    Bne,
    Pha,
    Php,
    Pla,
    Plp,
    // Status flags
    Sec,
    Clc,
    Clv,
    Sei,
    Cli,
    Sed,
    Cld,
    // Bit test
    Bit,
}

/// How an instruction uses the location its addressing mode designates.
pub enum Access {
    /// Reads a byte from the operand.
    Read,
    /// Writes a register to the operand.
    Write,
    /// Reads the operand, changes it and writes it back.
    Modify,
    /// Takes a branch offset.
    Branch,
    /// Takes a jump target.
    Jump,
    /// Has no operand.
    Nothing,
}

impl Instruction {
    /// The way this instruction uses its operand.
    pub open spec fn access(self) -> Access {
        match self {
            Instruction::Lda
            | Instruction::Ldx
            | Instruction::Ldy
            | Instruction::Adc
            | Instruction::Sbc
            | Instruction::And
            | Instruction::Ora
            | Instruction::Eor
            | Instruction::Cmp
            | Instruction::Cpx
            | Instruction::Cpy
            | Instruction::Bit => Access::Read,
            Instruction::Sta | Instruction::Stx | Instruction::Sty => Access::Write,
            Instruction::Asl
            | Instruction::Lsr
            | Instruction::Rol
            | Instruction::Ror
            | Instruction::Inc
            | Instruction::Dec => Access::Modify,
            Instruction::Bmi
            | Instruction::Bpl
            | Instruction::Bvs
            | Instruction::Bvc
            | Instruction::Bcs
            | Instruction::Bcc
            | Instruction::Beq
            | Instruction::Bne => Access::Branch,
            Instruction::Jmp | Instruction::Jsr => Access::Jump,
            _ => Access::Nothing,
        }
    }

    /// Whether the instruction can be encoded with the addressing mode `mode`
    /// as far as the kind of operand goes.
    pub open spec fn admits(self, mode: AddressingMode) -> bool {
        match self.access() {
            Access::Read | Access::Write | Access::Jump => mode.has_address(),
            Access::Modify => mode.has_address() || (mode is Accumulator && !(self is Inc
                || self is Dec)),
            Access::Branch => mode is Relative,
            Access::Nothing => mode is Implied,
        }
    }

    /// Nominal cycle cost of the instruction under the addressing mode `mode`.
    pub open spec fn cycles(self, mode: AddressingMode) -> nat {
        match self.access() {
            Access::Read => match mode {
                AddressingMode::Immediate => 2,
                AddressingMode::ZeroPage => 3,
                AddressingMode::IndexedIndirectX => 6,
                AddressingMode::IndirectIndexedY => 5,
                _ => 4,
            },
            Access::Write => match mode {
                AddressingMode::ZeroPage => 3,
                AddressingMode::ZeroPageX | AddressingMode::ZeroPageY | AddressingMode::Absolute => 4,
                AddressingMode::AbsoluteX | AddressingMode::AbsoluteY => 5,
                _ => 6,
            },
            Access::Modify => match mode {
                AddressingMode::Accumulator => 2,
                AddressingMode::ZeroPage => 5,
                AddressingMode::AbsoluteX => 7,
                _ => 6,
            },
            Access::Branch => 2,
            Access::Jump => match (self, mode) {
                (Instruction::Jmp, AddressingMode::Absolute) => 3,
                (Instruction::Jmp, _) => 5,
                _ => 6,
            },
            Access::Nothing => match self {
                Instruction::Brk => 7,
                Instruction::Rts | Instruction::Rti => 6,
                Instruction::Pla | Instruction::Plp => 4,
                Instruction::Pha | Instruction::Php => 3,
                _ => 2,
            },
        }
    }
}

/// One entry of the opcode table.
#[derive(Debug, Clone, Copy, PartialEq, Eq, Structural)]
pub struct OpCode {
    /// The opcode byte.
    pub code: u8,
    /// Length of the whole instruction in bytes, opcode included.
    pub bytes: u8,
    /// Nominal cycle cost.
    pub cycles: u8,
    pub instruction: Instruction,
    pub address_mode: AddressingMode,
}

/// Instruction kind and addressing mode of each official opcode byte, in
/// numerical order; `None` for the bytes that encode no official instruction.
pub open spec fn mnemonic(code: u8) -> Option<(Instruction, AddressingMode)> {
    if code == 0x00 {
        Some((Instruction::Brk, AddressingMode::Implied))
    } else if code == 0x01 {
        Some((Instruction::Ora, AddressingMode::IndexedIndirectX))
    } else if code == 0x05 {
        Some((Instruction::Ora, AddressingMode::ZeroPage))
    } else if code == 0x06 {
        Some((Instruction::Asl, AddressingMode::ZeroPage))
    } else if code == 0x08 {
        Some((Instruction::Php, AddressingMode::Implied))
    } else if code == 0x09 {
        Some((Instruction::Ora, AddressingMode::Immediate))
    } else if code == 0x0A {
        Some((Instruction::Asl, AddressingMode::Accumulator))
    } else if code == 0x0D {
        Some((Instruction::Ora, AddressingMode::Absolute))
    } else if code == 0x0E {
        Some((Instruction::Asl, AddressingMode::Absolute))
    } else if code == 0x10 {
        Some((Instruction::Bpl, AddressingMode::Relative))
    } else if code == 0x11 {
        Some((Instruction::Ora, AddressingMode::IndirectIndexedY))
    } else if code == 0x15 {
        Some((Instruction::Ora, AddressingMode::ZeroPageX))
    } else if code == 0x16 {
        Some((Instruction::Asl, AddressingMode::ZeroPageX))
    } else if code == 0x18 {
        Some((Instruction::Clc, AddressingMode::Implied))
    } else if code == 0x19 {
        Some((Instruction::Ora, AddressingMode::AbsoluteY))
    } else if code == 0x1D {
        Some((Instruction::Ora, AddressingMode::AbsoluteX))
    } else if code == 0x1E {
        Some((Instruction::Asl, AddressingMode::AbsoluteX))
    } else if code == 0x20 {
        Some((Instruction::Jsr, AddressingMode::Absolute))
    } else if code == 0x21 {
        Some((Instruction::And, AddressingMode::IndexedIndirectX))
    } else if code == 0x24 {
        Some((Instruction::Bit, AddressingMode::ZeroPage))
    } else if code == 0x25 {
        Some((Instruction::And, AddressingMode::ZeroPage))
    } else if code == 0x26 {
        Some((Instruction::Rol, AddressingMode::ZeroPage))
    } else if code == 0x28 {
        Some((Instruction::Plp, AddressingMode::Implied))
    } else if code == 0x29 {
        Some((Instruction::And, AddressingMode::Immediate))
    } else if code == 0x2A {
        Some((Instruction::Rol, AddressingMode::Accumulator))
    } else if code == 0x2C {
        Some((Instruction::Bit, AddressingMode::Absolute))
    } else if code == 0x2D {
        Some((Instruction::And, AddressingMode::Absolute))
    } else if code == 0x2E {
        Some((Instruction::Rol, AddressingMode::Absolute))
    } else if code == 0x30 {
        Some((Instruction::Bmi, AddressingMode::Relative))
    } else if code == 0x31 {
        Some((Instruction::And, AddressingMode::IndirectIndexedY))
    } else if code == 0x35 {
        Some((Instruction::And, AddressingMode::ZeroPageX))
    } else if code == 0x36 {
        Some((Instruction::Rol, AddressingMode::ZeroPageX))
    } else if code == 0x38 {
        Some((Instruction::Sec, AddressingMode::Implied))
    } else if code == 0x39 {
        Some((Instruction::And, AddressingMode::AbsoluteY))
    } else if code == 0x3D {
        Some((Instruction::And, AddressingMode::AbsoluteX))
    } else if code == 0x3E {
        Some((Instruction::Rol, AddressingMode::AbsoluteX))
    } else if code == 0x40 {
        Some((Instruction::Rti, AddressingMode::Implied))
    } else if code == 0x41 {
        Some((Instruction::Eor, AddressingMode::IndexedIndirectX))
    } else if code == 0x45 {
        Some((Instruction::Eor, AddressingMode::ZeroPage))
    } else if code == 0x46 {
        Some((Instruction::Lsr, AddressingMode::ZeroPage))
    } else if code == 0x48 {
        Some((Instruction::Pha, AddressingMode::Implied))
    } else if code == 0x49 {
        Some((Instruction::Eor, AddressingMode::Immediate))
    } else if code == 0x4A {
        Some((Instruction::Lsr, AddressingMode::Accumulator))
    } else if code == 0x4C {
        Some((Instruction::Jmp, AddressingMode::Absolute))
    } else if code == 0x4D {
        Some((Instruction::Eor, AddressingMode::Absolute))
    } else if code == 0x4E {
        Some((Instruction::Lsr, AddressingMode::Absolute))
    } else if code == 0x50 {
        Some((Instruction::Bvc, AddressingMode::Relative))
    } else if code == 0x51 {
        Some((Instruction::Eor, AddressingMode::IndirectIndexedY))
    } else if code == 0x55 {
        Some((Instruction::Eor, AddressingMode::ZeroPageX))
    } else if code == 0x56 {
        Some((Instruction::Lsr, AddressingMode::ZeroPageX))
    } else if code == 0x58 {
        Some((Instruction::Cli, AddressingMode::Implied))
    } else if code == 0x59 {
        Some((Instruction::Eor, AddressingMode::AbsoluteY))
    } else if code == 0x5D {
        Some((Instruction::Eor, AddressingMode::AbsoluteX))
    } else if code == 0x5E {
        Some((Instruction::Lsr, AddressingMode::AbsoluteX))
    } else if code == 0x60 {
        Some((Instruction::Rts, AddressingMode::Implied))
    } else if code == 0x61 {
        Some((Instruction::Adc, AddressingMode::IndexedIndirectX))
    } else if code == 0x65 {
        Some((Instruction::Adc, AddressingMode::ZeroPage))
    } else if code == 0x66 {
        Some((Instruction::Ror, AddressingMode::ZeroPage))
    } else if code == 0x68 {
        Some((Instruction::Pla, AddressingMode::Implied))
    } else if code == 0x69 {
        Some((Instruction::Adc, AddressingMode::Immediate))
    } else if code == 0x6A {
        Some((Instruction::Ror, AddressingMode::Accumulator))
    } else if code == 0x6C {
        Some((Instruction::Jmp, AddressingMode::Indirect))
    } else if code == 0x6D {
        Some((Instruction::Adc, AddressingMode::Absolute))
    } else if code == 0x6E {
        Some((Instruction::Ror, AddressingMode::Absolute))
    } else if code == 0x70 {
        Some((Instruction::Bvs, AddressingMode::Relative))
    } else if code == 0x71 {
        Some((Instruction::Adc, AddressingMode::IndirectIndexedY))
    } else if code == 0x75 {
        Some((Instruction::Adc, AddressingMode::ZeroPageX))
    } else if code == 0x76 {
        Some((Instruction::Ror, AddressingMode::ZeroPageX))
    } else if code == 0x78 {
        Some((Instruction::Sei, AddressingMode::Implied))
    } else if code == 0x79 {
        Some((Instruction::Adc, AddressingMode::AbsoluteY))
    } else if code == 0x7D {
        Some((Instruction::Adc, AddressingMode::AbsoluteX))
    } else if code == 0x7E {
        Some((Instruction::Ror, AddressingMode::AbsoluteX))
    } else if code == 0x81 {
        Some((Instruction::Sta, AddressingMode::IndexedIndirectX))
    } else if code == 0x84 {
        Some((Instruction::Sty, AddressingMode::ZeroPage))
    } else if code == 0x85 {
        Some((Instruction::Sta, AddressingMode::ZeroPage))
    } else if code == 0x86 {
        Some((Instruction::Stx, AddressingMode::ZeroPage))
    } else if code == 0x88 {
        Some((Instruction::Dey, AddressingMode::Implied))
    } else if code == 0x8A {
        Some((Instruction::Txa, AddressingMode::Implied))
    } else if code == 0x8C {
        Some((Instruction::Sty, AddressingMode::Absolute))
    } else if code == 0x8D {
        Some((Instruction::Sta, AddressingMode::Absolute))
    } else if code == 0x8E {
        Some((Instruction::Stx, AddressingMode::Absolute))
    } else if code == 0x90 {
        Some((Instruction::Bcc, AddressingMode::Relative))
    } else if code == 0x91 {
        Some((Instruction::Sta, AddressingMode::IndirectIndexedY))
    } else if code == 0x94 {
        Some((Instruction::Sty, AddressingMode::ZeroPageX))
    } else if code == 0x95 {
        Some((Instruction::Sta, AddressingMode::ZeroPageX))
    } else if code == 0x96 {
        Some((Instruction::Stx, AddressingMode::ZeroPageY))
    } else if code == 0x98 {
        Some((Instruction::Tya, AddressingMode::Implied))
    } else if code == 0x99 {
        Some((Instruction::Sta, AddressingMode::AbsoluteY))
    } else if code == 0x9A {
        Some((Instruction::Txs, AddressingMode::Implied))
    } else if code == 0x9D {
        Some((Instruction::Sta, AddressingMode::AbsoluteX))
    } else if code == 0xA0 {
        Some((Instruction::Ldy, AddressingMode::Immediate))
    } else if code == 0xA1 {
        Some((Instruction::Lda, AddressingMode::IndexedIndirectX))
    } else if code == 0xA2 {
        Some((Instruction::Ldx, AddressingMode::Immediate))
    } else if code == 0xA4 {
        Some((Instruction::Ldy, AddressingMode::ZeroPage))
    } else if code == 0xA5 {
        Some((Instruction::Lda, AddressingMode::ZeroPage))
    } else if code == 0xA6 {
        Some((Instruction::Ldx, AddressingMode::ZeroPage))
    } else if code == 0xA8 {
        Some((Instruction::Tay, AddressingMode::Implied))
    } else if code == 0xA9 {
        Some((Instruction::Lda, AddressingMode::Immediate))
    } else if code == 0xAA {
        Some((Instruction::Tax, AddressingMode::Implied))
    } else if code == 0xAC {
        Some((Instruction::Ldy, AddressingMode::Absolute))
    } else if code == 0xAD {
        Some((Instruction::Lda, AddressingMode::Absolute))
    } else if code == 0xAE {
        Some((Instruction::Ldx, AddressingMode::Absolute))
    } else if code == 0xB0 {
        Some((Instruction::Bcs, AddressingMode::Relative))
    } else if code == 0xB1 {
        Some((Instruction::Lda, AddressingMode::IndirectIndexedY))
    } else if code == 0xB4 {
        Some((Instruction::Ldy, AddressingMode::ZeroPageX))
    } else if code == 0xB5 {
        Some((Instruction::Lda, AddressingMode::ZeroPageX))
    } else if code == 0xB6 {
        Some((Instruction::Ldx, AddressingMode::ZeroPageY))
    } else if code == 0xB8 {
        Some((Instruction::Clv, AddressingMode::Implied))
    } else if code == 0xB9 {
        Some((Instruction::Lda, AddressingMode::AbsoluteY))
    } else if code == 0xBA {
        Some((Instruction::Tsx, AddressingMode::Implied))
    } else if code == 0xBC {
        Some((Instruction::Ldy, AddressingMode::AbsoluteX))
    } else if code == 0xBD {
        Some((Instruction::Lda, AddressingMode::AbsoluteX))
    } else if code == 0xBE {
        Some((Instruction::Ldx, AddressingMode::AbsoluteY))
    } else if code == 0xC0 {
        Some((Instruction::Cpy, AddressingMode::Immediate))
    } else if code == 0xC1 {
        Some((Instruction::Cmp, AddressingMode::IndexedIndirectX))
    } else if code == 0xC4 {
        Some((Instruction::Cpy, AddressingMode::ZeroPage))
    } else if code == 0xC5 {
        Some((Instruction::Cmp, AddressingMode::ZeroPage))
    } else if code == 0xC6 {
        Some((Instruction::Dec, AddressingMode::ZeroPage))
    } else if code == 0xC8 {
        Some((Instruction::Iny, AddressingMode::Implied))
    } else if code == 0xC9 {
        Some((Instruction::Cmp, AddressingMode::Immediate))
    } else if code == 0xCA {
        Some((Instruction::Dex, AddressingMode::Implied))
    } else if code == 0xCC {
        Some((Instruction::Cpy, AddressingMode::Absolute))
    } else if code == 0xCD {
        Some((Instruction::Cmp, AddressingMode::Absolute))
    } else if code == 0xCE {
        Some((Instruction::Dec, AddressingMode::Absolute))
    } else if code == 0xD0 {
        Some((Instruction::Bne, AddressingMode::Relative))
    } else if code == 0xD1 {
        Some((Instruction::Cmp, AddressingMode::IndirectIndexedY))
    } else if code == 0xD5 {
        Some((Instruction::Cmp, AddressingMode::ZeroPageX))
    } else if code == 0xD6 {
        Some((Instruction::Dec, AddressingMode::ZeroPageX))
    } else if code == 0xD8 {
        Some((Instruction::Cld, AddressingMode::Implied))
    } else if code == 0xD9 {
        Some((Instruction::Cmp, AddressingMode::AbsoluteY))
    } else if code == 0xDD {
        Some((Instruction::Cmp, AddressingMode::AbsoluteX))
    } else if code == 0xDE {
        Some((Instruction::Dec, AddressingMode::AbsoluteX))
    } else if code == 0xE0 {
        Some((Instruction::Cpx, AddressingMode::Immediate))
    } else if code == 0xE1 {
        Some((Instruction::Sbc, AddressingMode::IndexedIndirectX))
    } else if code == 0xE4 {
        Some((Instruction::Cpx, AddressingMode::ZeroPage))
    } else if code == 0xE5 {
        Some((Instruction::Sbc, AddressingMode::ZeroPage))
    } else if code == 0xE6 {
        Some((Instruction::Inc, AddressingMode::ZeroPage))
    } else if code == 0xE8 {
        Some((Instruction::Inx, AddressingMode::Implied))
    } else if code == 0xE9 {
        Some((Instruction::Sbc, AddressingMode::Immediate))
    } else if code == 0xEA {
        Some((Instruction::Nop, AddressingMode::Implied))
    } else if code == 0xEC {
        Some((Instruction::Cpx, AddressingMode::Absolute))
    } else if code == 0xED {
        Some((Instruction::Sbc, AddressingMode::Absolute))
    } else if code == 0xEE {
        Some((Instruction::Inc, AddressingMode::Absolute))
    } else if code == 0xF0 {
        Some((Instruction::Beq, AddressingMode::Relative))
    } else if code == 0xF1 {
        Some((Instruction::Sbc, AddressingMode::IndirectIndexedY))
    } else if code == 0xF5 {
        Some((Instruction::Sbc, AddressingMode::ZeroPageX))
    } else if code == 0xF6 {
        Some((Instruction::Inc, AddressingMode::ZeroPageX))
    } else if code == 0xF8 {
        Some((Instruction::Sed, AddressingMode::Implied))
    } else if code == 0xF9 {
        Some((Instruction::Sbc, AddressingMode::AbsoluteY))
    } else if code == 0xFD {
        Some((Instruction::Sbc, AddressingMode::AbsoluteX))
    } else if code == 0xFE {
        Some((Instruction::Inc, AddressingMode::AbsoluteX))
    } else {
        None
    }
}

/// The table entry of the opcode byte `code`: its length is the opcode byte
/// plus the operand bytes of its addressing mode, and its cycle cost follows
/// from the instruction's kind of access.
pub open spec fn decode(code: u8) -> Option<OpCode> {
    match mnemonic(code) {
        Some((instruction, mode)) => Some(
            OpCode {
                code,
                bytes: (1 + mode.operand_bytes()) as u8,
                cycles: instruction.cycles(mode) as u8,
                instruction,
                address_mode: mode,
            },
        ),
        None => None,
    }
}

impl OpCode {
    /// A table entry from its parts.
    pub fn new(code: u8, instruction: Instruction, bytes: u8, cycles: u8, mode: AddressingMode) -> (opcode: OpCode)
        ensures
            opcode == (OpCode { code, bytes, cycles, instruction, address_mode: mode }),
    {
        OpCode { code, bytes, cycles, instruction, address_mode: mode }
    }

    /// Looks the opcode byte up in the table of the 151 official opcodes.
    ///
    /// Returns `None` exactly for the bytes that encode no official
    /// instruction.
    #[verifier::rlimit(100)]
    pub fn from_byte(code: u8) -> (entry: Option<OpCode>)
        ensures
            entry == decode(code),
            entry matches Some(opcode) ==> {
                &&& opcode.code == code
                &&& 1 <= opcode.bytes <= 3
                &&& opcode.instruction.admits(opcode.address_mode)
            },
    {
        match code {
            // BRK
            0x00 => return Some(OpCode::new(code, Instruction::Brk, 1, 7, AddressingMode::Implied)),
            // ADC
            0x69 => return Some(OpCode::new(code, Instruction::Adc, 2, 2, AddressingMode::Immediate)),
            0x65 => return Some(OpCode::new(code, Instruction::Adc, 2, 3, AddressingMode::ZeroPage)),
            0x75 => return Some(OpCode::new(code, Instruction::Adc, 2, 4, AddressingMode::ZeroPageX)),
            0x6D => return Some(OpCode::new(code, Instruction::Adc, 3, 4, AddressingMode::Absolute)),
            0x7D => return Some(OpCode::new(code, Instruction::Adc, 3, 4, AddressingMode::AbsoluteX)),
            0x79 => return Some(OpCode::new(code, Instruction::Adc, 3, 4, AddressingMode::AbsoluteY)),
            0x61 => return Some(OpCode::new(code, Instruction::Adc, 2, 6, AddressingMode::IndexedIndirectX)),
            0x71 => return Some(OpCode::new(code, Instruction::Adc, 2, 5, AddressingMode::IndirectIndexedY)),
            // AND
            0x29 => return Some(OpCode::new(code, Instruction::And, 2, 2, AddressingMode::Immediate)),
            0x25 => return Some(OpCode::new(code, Instruction::And, 2, 3, AddressingMode::ZeroPage)),
            0x35 => return Some(OpCode::new(code, Instruction::And, 2, 4, AddressingMode::ZeroPageX)),
            0x2D => return Some(OpCode::new(code, Instruction::And, 3, 4, AddressingMode::Absolute)),
            0x3D => return Some(OpCode::new(code, Instruction::And, 3, 4, AddressingMode::AbsoluteX)),
            0x39 => return Some(OpCode::new(code, Instruction::And, 3, 4, AddressingMode::AbsoluteY)),
            0x21 => return Some(OpCode::new(code, Instruction::And, 2, 6, AddressingMode::IndexedIndirectX)),
            0x31 => return Some(OpCode::new(code, Instruction::And, 2, 5, AddressingMode::IndirectIndexedY)),
            // ASL
            0x0A => return Some(OpCode::new(code, Instruction::Asl, 1, 2, AddressingMode::Accumulator)),
            0x06 => return Some(OpCode::new(code, Instruction::Asl, 2, 5, AddressingMode::ZeroPage)),
            0x16 => return Some(OpCode::new(code, Instruction::Asl, 2, 6, AddressingMode::ZeroPageX)),
            0x0E => return Some(OpCode::new(code, Instruction::Asl, 3, 6, AddressingMode::Absolute)),
            0x1E => return Some(OpCode::new(code, Instruction::Asl, 3, 7, AddressingMode::AbsoluteX)),
            // BIT
            0x24 => return Some(OpCode::new(code, Instruction::Bit, 2, 3, AddressingMode::ZeroPage)),
            0x2C => return Some(OpCode::new(code, Instruction::Bit, 3, 4, AddressingMode::Absolute)),
            // BPL
            0x10 => return Some(OpCode::new(code, Instruction::Bpl, 2, 2, AddressingMode::Relative)),
            // BMI
            0x30 => return Some(OpCode::new(code, Instruction::Bmi, 2, 2, AddressingMode::Relative)),
            // BVC
            0x50 => return Some(OpCode::new(code, Instruction::Bvc, 2, 2, AddressingMode::Relative)),
            // BVS
            0x70 => return Some(OpCode::new(code, Instruction::Bvs, 2, 2, AddressingMode::Relative)),
            // BCC
            0x90 => return Some(OpCode::new(code, Instruction::Bcc, 2, 2, AddressingMode::Relative)),
            // BCS
            0xB0 => return Some(OpCode::new(code, Instruction::Bcs, 2, 2, AddressingMode::Relative)),
            // BNE
            0xD0 => return Some(OpCode::new(code, Instruction::Bne, 2, 2, AddressingMode::Relative)),
            // BEQ
            0xF0 => return Some(OpCode::new(code, Instruction::Beq, 2, 2, AddressingMode::Relative)),
            // CMP
            0xC9 => return Some(OpCode::new(code, Instruction::Cmp, 2, 2, AddressingMode::Immediate)),
            0xC5 => return Some(OpCode::new(code, Instruction::Cmp, 2, 3, AddressingMode::ZeroPage)),
            0xD5 => return Some(OpCode::new(code, Instruction::Cmp, 2, 4, AddressingMode::ZeroPageX)),
            0xCD => return Some(OpCode::new(code, Instruction::Cmp, 3, 4, AddressingMode::Absolute)),
            0xDD => return Some(OpCode::new(code, Instruction::Cmp, 3, 4, AddressingMode::AbsoluteX)),
            0xD9 => return Some(OpCode::new(code, Instruction::Cmp, 3, 4, AddressingMode::AbsoluteY)),
            0xC1 => return Some(OpCode::new(code, Instruction::Cmp, 2, 6, AddressingMode::IndexedIndirectX)),
            0xD1 => return Some(OpCode::new(code, Instruction::Cmp, 2, 5, AddressingMode::IndirectIndexedY)),
            // CPX
            0xE0 => return Some(OpCode::new(code, Instruction::Cpx, 2, 2, AddressingMode::Immediate)),
            0xE4 => return Some(OpCode::new(code, Instruction::Cpx, 2, 3, AddressingMode::ZeroPage)),
            0xEC => return Some(OpCode::new(code, Instruction::Cpx, 3, 4, AddressingMode::Absolute)),
            // CPY
            0xC0 => return Some(OpCode::new(code, Instruction::Cpy, 2, 2, AddressingMode::Immediate)),
            0xC4 => return Some(OpCode::new(code, Instruction::Cpy, 2, 3, AddressingMode::ZeroPage)),
            0xCC => return Some(OpCode::new(code, Instruction::Cpy, 3, 4, AddressingMode::Absolute)),
            // DEC
            0xC6 => return Some(OpCode::new(code, Instruction::Dec, 2, 5, AddressingMode::ZeroPage)),
            0xD6 => return Some(OpCode::new(code, Instruction::Dec, 2, 6, AddressingMode::ZeroPageX)),
            0xCE => return Some(OpCode::new(code, Instruction::Dec, 3, 6, AddressingMode::Absolute)),
            0xDE => return Some(OpCode::new(code, Instruction::Dec, 3, 7, AddressingMode::AbsoluteX)),
            // EOR
            0x49 => return Some(OpCode::new(code, Instruction::Eor, 2, 2, AddressingMode::Immediate)),
            0x45 => return Some(OpCode::new(code, Instruction::Eor, 2, 3, AddressingMode::ZeroPage)),
            0x55 => return Some(OpCode::new(code, Instruction::Eor, 2, 4, AddressingMode::ZeroPageX)),
            0x4D => return Some(OpCode::new(code, Instruction::Eor, 3, 4, AddressingMode::Absolute)),
            0x5D => return Some(OpCode::new(code, Instruction::Eor, 3, 4, AddressingMode::AbsoluteX)),
            0x59 => return Some(OpCode::new(code, Instruction::Eor, 3, 4, AddressingMode::AbsoluteY)),
            0x41 => return Some(OpCode::new(code, Instruction::Eor, 2, 6, AddressingMode::IndexedIndirectX)),
            0x51 => return Some(OpCode::new(code, Instruction::Eor, 2, 5, AddressingMode::IndirectIndexedY)),
            // INC
            0xE6 => return Some(OpCode::new(code, Instruction::Inc, 2, 5, AddressingMode::ZeroPage)),
            0xF6 => return Some(OpCode::new(code, Instruction::Inc, 2, 6, AddressingMode::ZeroPageX)),
            0xEE => return Some(OpCode::new(code, Instruction::Inc, 3, 6, AddressingMode::Absolute)),
            0xFE => return Some(OpCode::new(code, Instruction::Inc, 3, 7, AddressingMode::AbsoluteX)),
            // JMP
            0x4C => return Some(OpCode::new(code, Instruction::Jmp, 3, 3, AddressingMode::Absolute)),
            0x6C => return Some(OpCode::new(code, Instruction::Jmp, 3, 5, AddressingMode::Indirect)),
            // JSR
            0x20 => return Some(OpCode::new(code, Instruction::Jsr, 3, 6, AddressingMode::Absolute)),
            // LDA
            0xA9 => return Some(OpCode::new(code, Instruction::Lda, 2, 2, AddressingMode::Immediate)),
            0xA5 => return Some(OpCode::new(code, Instruction::Lda, 2, 3, AddressingMode::ZeroPage)),
            0xB5 => return Some(OpCode::new(code, Instruction::Lda, 2, 4, AddressingMode::ZeroPageX)),
            0xAD => return Some(OpCode::new(code, Instruction::Lda, 3, 4, AddressingMode::Absolute)),
            0xBD => return Some(OpCode::new(code, Instruction::Lda, 3, 4, AddressingMode::AbsoluteX)),
            0xB9 => return Some(OpCode::new(code, Instruction::Lda, 3, 4, AddressingMode::AbsoluteY)),
            0xA1 => return Some(OpCode::new(code, Instruction::Lda, 2, 6, AddressingMode::IndexedIndirectX)),
            0xB1 => return Some(OpCode::new(code, Instruction::Lda, 2, 5, AddressingMode::IndirectIndexedY)),
            // LDX
            0xA2 => return Some(OpCode::new(code, Instruction::Ldx, 2, 2, AddressingMode::Immediate)),
            0xA6 => return Some(OpCode::new(code, Instruction::Ldx, 2, 3, AddressingMode::ZeroPage)),
            0xB6 => return Some(OpCode::new(code, Instruction::Ldx, 2, 4, AddressingMode::ZeroPageY)),
            0xAE => return Some(OpCode::new(code, Instruction::Ldx, 3, 4, AddressingMode::Absolute)),
            0xBE => return Some(OpCode::new(code, Instruction::Ldx, 3, 4, AddressingMode::AbsoluteY)),
            // LDY
            0xA0 => return Some(OpCode::new(code, Instruction::Ldy, 2, 2, AddressingMode::Immediate)),
            0xA4 => return Some(OpCode::new(code, Instruction::Ldy, 2, 3, AddressingMode::ZeroPage)),
            0xB4 => return Some(OpCode::new(code, Instruction::Ldy, 2, 4, AddressingMode::ZeroPageX)),
            0xAC => return Some(OpCode::new(code, Instruction::Ldy, 3, 4, AddressingMode::Absolute)),
            0xBC => return Some(OpCode::new(code, Instruction::Ldy, 3, 4, AddressingMode::AbsoluteX)),
            // LSR
            0x4A => return Some(OpCode::new(code, Instruction::Lsr, 1, 2, AddressingMode::Accumulator)),
            0x46 => return Some(OpCode::new(code, Instruction::Lsr, 2, 5, AddressingMode::ZeroPage)),
            0x56 => return Some(OpCode::new(code, Instruction::Lsr, 2, 6, AddressingMode::ZeroPageX)),
            0x4E => return Some(OpCode::new(code, Instruction::Lsr, 3, 6, AddressingMode::Absolute)),
            0x5E => return Some(OpCode::new(code, Instruction::Lsr, 3, 7, AddressingMode::AbsoluteX)),
            // NOP
            0xEA => return Some(OpCode::new(code, Instruction::Nop, 1, 2, AddressingMode::Implied)),
            // ORA
            0x09 => return Some(OpCode::new(code, Instruction::Ora, 2, 2, AddressingMode::Immediate)),
            0x05 => return Some(OpCode::new(code, Instruction::Ora, 2, 3, AddressingMode::ZeroPage)),
            0x15 => return Some(OpCode::new(code, Instruction::Ora, 2, 4, AddressingMode::ZeroPageX)),
            0x0D => return Some(OpCode::new(code, Instruction::Ora, 3, 4, AddressingMode::Absolute)),
            0x1D => return Some(OpCode::new(code, Instruction::Ora, 3, 4, AddressingMode::AbsoluteX)),
            0x19 => return Some(OpCode::new(code, Instruction::Ora, 3, 4, AddressingMode::AbsoluteY)),
            0x01 => return Some(OpCode::new(code, Instruction::Ora, 2, 6, AddressingMode::IndexedIndirectX)),
            0x11 => return Some(OpCode::new(code, Instruction::Ora, 2, 5, AddressingMode::IndirectIndexedY)),
            // ROL
            0x2A => return Some(OpCode::new(code, Instruction::Rol, 1, 2, AddressingMode::Accumulator)),
            0x26 => return Some(OpCode::new(code, Instruction::Rol, 2, 5, AddressingMode::ZeroPage)),
            0x36 => return Some(OpCode::new(code, Instruction::Rol, 2, 6, AddressingMode::ZeroPageX)),
            0x2E => return Some(OpCode::new(code, Instruction::Rol, 3, 6, AddressingMode::Absolute)),
            0x3E => return Some(OpCode::new(code, Instruction::Rol, 3, 7, AddressingMode::AbsoluteX)),
            // ROR
            0x6A => return Some(OpCode::new(code, Instruction::Ror, 1, 2, AddressingMode::Accumulator)),
            0x66 => return Some(OpCode::new(code, Instruction::Ror, 2, 5, AddressingMode::ZeroPage)),
            0x76 => return Some(OpCode::new(code, Instruction::Ror, 2, 6, AddressingMode::ZeroPageX)),
            0x6E => return Some(OpCode::new(code, Instruction::Ror, 3, 6, AddressingMode::Absolute)),
            0x7E => return Some(OpCode::new(code, Instruction::Ror, 3, 7, AddressingMode::AbsoluteX)),
            // SBC
            0xE9 => return Some(OpCode::new(code, Instruction::Sbc, 2, 2, AddressingMode::Immediate)),
            0xE5 => return Some(OpCode::new(code, Instruction::Sbc, 2, 3, AddressingMode::ZeroPage)),
            0xF5 => return Some(OpCode::new(code, Instruction::Sbc, 2, 4, AddressingMode::ZeroPageX)),
            0xED => return Some(OpCode::new(code, Instruction::Sbc, 3, 4, AddressingMode::Absolute)),
            0xFD => return Some(OpCode::new(code, Instruction::Sbc, 3, 4, AddressingMode::AbsoluteX)),
            0xF9 => return Some(OpCode::new(code, Instruction::Sbc, 3, 4, AddressingMode::AbsoluteY)),
            0xE1 => return Some(OpCode::new(code, Instruction::Sbc, 2, 6, AddressingMode::IndexedIndirectX)),
            0xF1 => return Some(OpCode::new(code, Instruction::Sbc, 2, 5, AddressingMode::IndirectIndexedY)),
            // STA
            0x85 => return Some(OpCode::new(code, Instruction::Sta, 2, 3, AddressingMode::ZeroPage)),
            0x95 => return Some(OpCode::new(code, Instruction::Sta, 2, 4, AddressingMode::ZeroPageX)),
            0x8D => return Some(OpCode::new(code, Instruction::Sta, 3, 4, AddressingMode::Absolute)),
            0x9D => return Some(OpCode::new(code, Instruction::Sta, 3, 5, AddressingMode::AbsoluteX)),
            0x99 => return Some(OpCode::new(code, Instruction::Sta, 3, 5, AddressingMode::AbsoluteY)),
            0x81 => return Some(OpCode::new(code, Instruction::Sta, 2, 6, AddressingMode::IndexedIndirectX)),
            0x91 => return Some(OpCode::new(code, Instruction::Sta, 2, 6, AddressingMode::IndirectIndexedY)),
            // STX
            0x86 => return Some(OpCode::new(code, Instruction::Stx, 2, 3, AddressingMode::ZeroPage)),
            0x96 => return Some(OpCode::new(code, Instruction::Stx, 2, 4, AddressingMode::ZeroPageY)),
            0x8E => return Some(OpCode::new(code, Instruction::Stx, 3, 4, AddressingMode::Absolute)),
            // STY
            0x84 => return Some(OpCode::new(code, Instruction::Sty, 2, 3, AddressingMode::ZeroPage)),
            0x94 => return Some(OpCode::new(code, Instruction::Sty, 2, 4, AddressingMode::ZeroPageX)),
            0x8C => return Some(OpCode::new(code, Instruction::Sty, 3, 4, AddressingMode::Absolute)),
            // INX
            0xE8 => return Some(OpCode::new(code, Instruction::Inx, 1, 2, AddressingMode::Implied)),
            // INY
            0xC8 => return Some(OpCode::new(code, Instruction::Iny, 1, 2, AddressingMode::Implied)),
            // DEX
            0xCA => return Some(OpCode::new(code, Instruction::Dex, 1, 2, AddressingMode::Implied)),
            // DEY
            0x88 => return Some(OpCode::new(code, Instruction::Dey, 1, 2, AddressingMode::Implied)),
            // TAX
            0xAA => return Some(OpCode::new(code, Instruction::Tax, 1, 2, AddressingMode::Implied)),
            // TAY
            0xA8 => return Some(OpCode::new(code, Instruction::Tay, 1, 2, AddressingMode::Implied)),
            // TSX
            0xBA => return Some(OpCode::new(code, Instruction::Tsx, 1, 2, AddressingMode::Implied)),
            // TXA
            0x8A => return Some(OpCode::new(code, Instruction::Txa, 1, 2, AddressingMode::Implied)),
            // TXS
            0x9A => return Some(OpCode::new(code, Instruction::Txs, 1, 2, AddressingMode::Implied)),
            // TYA
            0x98 => return Some(OpCode::new(code, Instruction::Tya, 1, 2, AddressingMode::Implied)),
            // SEC
            0x38 => return Some(OpCode::new(code, Instruction::Sec, 1, 2, AddressingMode::Implied)),
            // CLC
            0x18 => return Some(OpCode::new(code, Instruction::Clc, 1, 2, AddressingMode::Implied)),
            // CLV
            0xB8 => return Some(OpCode::new(code, Instruction::Clv, 1, 2, AddressingMode::Implied)),
            // SEI
            0x78 => return Some(OpCode::new(code, Instruction::Sei, 1, 2, AddressingMode::Implied)),
            // CLI
            0x58 => return Some(OpCode::new(code, Instruction::Cli, 1, 2, AddressingMode::Implied)),
            // SED
            0xF8 => return Some(OpCode::new(code, Instruction::Sed, 1, 2, AddressingMode::Implied)),
            // CLD
            0xD8 => return Some(OpCode::new(code, Instruction::Cld, 1, 2, AddressingMode::Implied)),
            // RTS
            0x60 => return Some(OpCode::new(code, Instruction::Rts, 1, 6, AddressingMode::Implied)),
            // RTI
            0x40 => return Some(OpCode::new(code, Instruction::Rti, 1, 6, AddressingMode::Implied)),
            // PHA
            0x48 => return Some(OpCode::new(code, Instruction::Pha, 1, 3, AddressingMode::Implied)),
            // PHP
            0x08 => return Some(OpCode::new(code, Instruction::Php, 1, 3, AddressingMode::Implied)),
            // PLA
            0x68 => return Some(OpCode::new(code, Instruction::Pla, 1, 4, AddressingMode::Implied)),
            // PLP
            0x28 => return Some(OpCode::new(code, Instruction::Plp, 1, 4, AddressingMode::Implied)),
            _ => return None,
        }
    }
}

} // verus!
