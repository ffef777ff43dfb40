//! The register file.

use crate::status::{flag_set, lemma_with_flag, with_flag, StatusFlag};
use vstd::prelude::*;

verus! {

/// The registers of the processor.
#[derive(Debug, Clone, Copy, PartialEq, Eq, Structural)]
pub struct Cpu {
    pub accumulator: u8,
    pub register_x: u8,
    pub register_y: u8,
    pub program_counter: u16,
    pub status: u8,
    pub stack_pointer: u8,
}

/// Status byte after power-up or reset: interrupts disabled, constant bit set.
pub const RESET_STATUS: u8 = 0b0010_0100;

/// Stack pointer after power-up or reset.
pub const RESET_STACK_POINTER: u8 = 0xFD;

/// Where a raw program is placed and started.
pub const PROGRAM_START: u16 = 0x0600;

/// The status byte `status` with the zero and negative flags describing `value`.
pub open spec fn zn_status(status: u8, value: u8) -> u8 {
    with_flag(with_flag(status, StatusFlag::Zero, value == 0), StatusFlag::Negative, value >= 0x80)
}

/// The zero flag of `zn_status` tells whether the value was zero, the negative
/// flag is the value's bit 7, and the other six flags are kept.
pub proof fn lemma_zn_status(status: u8, value: u8)
    ensures
        flag_set(zn_status(status, value), StatusFlag::Zero) == (value == 0),
        flag_set(zn_status(status, value), StatusFlag::Negative) == (value & 0x80 != 0),
        flag_set(zn_status(status, value), StatusFlag::Negative) == (value >= 0x80),
        forall|flag: StatusFlag|
            #![trigger flag_set(zn_status(status, value), flag)]
            flag != StatusFlag::Zero && flag != StatusFlag::Negative ==> flag_set(
                zn_status(status, value),
                flag,
            ) == flag_set(status, flag),
{
    let first = with_flag(status, StatusFlag::Zero, value == 0);
    lemma_with_flag(status, StatusFlag::Zero, value == 0);
    lemma_with_flag(first, StatusFlag::Negative, value >= 0x80);
    assert((value & 0x80 != 0) == (value >= 0x80)) by (bit_vector);
    assert forall|flag: StatusFlag|
        #![trigger flag_set(zn_status(status, value), flag)]
        flag != StatusFlag::Zero && flag != StatusFlag::Negative implies flag_set(
        zn_status(status, value),
        flag,
    ) == flag_set(status, flag) by {
        assert(flag_set(with_flag(first, StatusFlag::Negative, value >= 0x80), flag) == flag_set(
            first,
            flag,
        ));
        assert(flag_set(with_flag(status, StatusFlag::Zero, value == 0), flag) == flag_set(
            status,
            flag,
        ));
    }
    assert(flag_set(with_flag(first, StatusFlag::Negative, value >= 0x80), StatusFlag::Zero)
        == flag_set(first, StatusFlag::Zero));
    assert(flag_set(with_flag(status, StatusFlag::Zero, value == 0), StatusFlag::Zero) == (value
        == 0));
    assert(flag_set(with_flag(first, StatusFlag::Negative, value >= 0x80), StatusFlag::Negative)
        == (value >= 0x80));
}

impl Default for Cpu {
    /// The registers as they are after power-up, ready to run a raw program.
    fn default() -> (cpu: Self)
        ensures
            cpu == (Cpu {
                accumulator: 0,
                register_x: 0,
                register_y: 0,
                program_counter: PROGRAM_START,
                status: RESET_STATUS,
                stack_pointer: RESET_STACK_POINTER,
            }),
    {
        Cpu {
            accumulator: 0,
            register_x: 0,
            register_y: 0,
            program_counter: PROGRAM_START,
            status: RESET_STATUS,
            stack_pointer: RESET_STACK_POINTER,
        }
    }
}

impl Cpu {
    /// Whether `flag` is set in the status register.
    pub open spec fn flag(self, flag: StatusFlag) -> bool {
        flag_set(self.status, flag)
    }

    /// The carry flag as a number, 0 or 1.
    pub open spec fn carry(self) -> int {
        if self.flag(StatusFlag::Carry) {
            1
        } else {
            0
        }
    }

    /// These registers with `flag` forced to `on`.
    pub open spec fn with(self, flag: StatusFlag, on: bool) -> Cpu {
        Cpu { status: with_flag(self.status, flag, on), ..self }
    }

    /// These registers with the zero and negative flags describing `value`.
    pub open spec fn with_zn(self, value: u8) -> Cpu {
        Cpu { status: zn_status(self.status, value), ..self }
    }

    /// These registers after `value` was loaded into the accumulator.
    pub open spec fn load_a(self, value: u8) -> Cpu {
        Cpu { accumulator: value, ..self.with_zn(value) }
    }

    /// These registers after `value` was loaded into X.
    pub open spec fn load_x(self, value: u8) -> Cpu {
        Cpu { register_x: value, ..self.with_zn(value) }
    }

    /// These registers after `value` was loaded into Y.
    pub open spec fn load_y(self, value: u8) -> Cpu {
        Cpu { register_y: value, ..self.with_zn(value) }
    }

    /// These registers after a reset, the program counter aside.
    pub open spec fn after_reset(self) -> Cpu {
        Cpu {
            accumulator: 0,
            register_x: 0,
            register_y: 0,
            program_counter: self.program_counter,
            status: RESET_STATUS,
            stack_pointer: RESET_STACK_POINTER,
        }
    }

    /// A register file from the six register values.
    pub fn new(
        accumulator: u8,
        register_x: u8,
        register_y: u8,
        program_counter: u16,
        status: u8,
        stack_pointer: u8,
    ) -> (cpu: Self)
        ensures
            cpu == (Cpu {
                accumulator,
                register_x,
                register_y,
                program_counter,
                status,
                stack_pointer,
            }),
    {
        Cpu { accumulator, register_x, register_y, program_counter, status, stack_pointer }
    }

    /// Clears A, X and Y and installs the reset values of the status byte and
    /// the stack pointer. The program counter is left alone: it comes from
    /// the reset vector, which only the memory knows.
    pub fn reset(&mut self)
        ensures
            *final(self) == old(self).after_reset(),
    {
        self.accumulator = 0;
        self.register_x = 0;
        self.register_y = 0;
        self.status = RESET_STATUS;
        self.stack_pointer = RESET_STACK_POINTER;
    }

    /// Whether `flag` is set.
    pub fn has_flag(&self, flag: &StatusFlag) -> (set: bool)
        ensures
            set == self.flag(*flag),
    {
        (self.status & flag.bit_shift()) != 0
    }

    /// Sets `flag` and leaves everything else as it is.
    pub fn enable_flag(&mut self, flag: &StatusFlag)
        ensures
            *final(self) == old(self).with(*flag, true),
            forall|other: StatusFlag|
                #![trigger final(self).flag(other)]
                final(self).flag(other) == (other == *flag || old(self).flag(other)),
    {
        self.status = crate::status::enable_flag(self.status, *flag);
    }

    /// Clears `flag` and leaves everything else as it is.
    pub fn disable_flag(&mut self, flag: &StatusFlag)
        ensures
            *final(self) == old(self).with(*flag, false),
            forall|other: StatusFlag|
                #![trigger final(self).flag(other)]
                final(self).flag(other) == (other != *flag && old(self).flag(other)),
    {
        self.status = crate::status::disable_flag(self.status, *flag);
    }

    /// Sets `flag` if `is_enable` holds and clears it otherwise.
    pub fn update_flag(&mut self, flag: &StatusFlag, is_enable: bool)
        ensures
            *final(self) == old(self).with(*flag, is_enable),
            forall|other: StatusFlag|
                #![trigger final(self).flag(other)]
                final(self).flag(other) == (if other == *flag {
                    is_enable
                } else {
                    old(self).flag(other)
                }),
    {
        if is_enable {
            self.enable_flag(flag)
        } else {
            self.disable_flag(flag)
        }
    }

    /// Makes the zero flag tell whether `value` is zero and the negative flag
    /// repeat bit 7 of `value`; the other flags and the registers are kept.
    pub fn update_zero_and_negative_flags(&mut self, value: u8)
        ensures
            *final(self) == old(self).with_zn(value),
            final(self).flag(StatusFlag::Zero) == (value == 0),
            final(self).flag(StatusFlag::Negative) == (value & 0x80 != 0),
            final(self).flag(StatusFlag::Negative) == (value >= 0x80),
            forall|other: StatusFlag|
                #![trigger final(self).flag(other)]
                other != StatusFlag::Zero && other != StatusFlag::Negative ==> final(self).flag(
                    other,
                ) == old(self).flag(other),
    {
        proof {
            lemma_zn_status(self.status, value);
            assert((value & 0x80 != 0) == (value >= 0x80)) by (bit_vector);
        }
        self.update_flag(&StatusFlag::Zero, value == 0);
        self.update_flag(&StatusFlag::Negative, value & 0x80 != 0);
        proof {
            assert(self.status == zn_status(old(self).status, value));
        }
    }
}

} // verus!
