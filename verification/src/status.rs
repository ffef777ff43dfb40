//! The processor status byte and its eight flags.

use vstd::prelude::*;

verus! {

/// One flag of the status byte, from the least significant bit upwards.
#[derive(Debug, Clone, Copy, PartialEq, Eq, Structural)]
pub enum StatusFlag {
    Carry,
    Zero,
    Interrupt,
    Decimal,
    Break,
    Constant,
    Overflow,
    Negative,
}

impl StatusFlag {
    /// Position of the flag inside the status byte, 0 for the lowest bit.
    pub open spec fn position(self) -> nat {
        match self {
            StatusFlag::Carry => 0,
            StatusFlag::Zero => 1,
            StatusFlag::Interrupt => 2,
            StatusFlag::Decimal => 3,
            StatusFlag::Break => 4,
            StatusFlag::Constant => 5,
            StatusFlag::Overflow => 6,
            StatusFlag::Negative => 7,
        }
    }

    /// The byte that has exactly this flag set.
    pub open spec fn mask(self) -> u8 {
        match self {
            StatusFlag::Carry => 0x01,
            StatusFlag::Zero => 0x02,
            StatusFlag::Interrupt => 0x04,
            StatusFlag::Decimal => 0x08,
            StatusFlag::Break => 0x10,
            StatusFlag::Constant => 0x20,
            StatusFlag::Overflow => 0x40,
            StatusFlag::Negative => 0x80,
        }
    }

    /// Mask of the flag: a single bit at the flag's position.
    pub fn bit_shift(&self) -> (mask: u8)
        ensures
            mask == self.mask(),
            mask == vstd::arithmetic::power2::pow2(self.position()),
    {
        proof {
            vstd::arithmetic::power2::lemma2_to64();
        }
        match self {
            StatusFlag::Carry => 0x01,
            StatusFlag::Zero => 0x02,
            StatusFlag::Interrupt => 0x04,
            StatusFlag::Decimal => 0x08,
            StatusFlag::Break => 0x10,
            StatusFlag::Constant => 0x20,
            StatusFlag::Overflow => 0x40,
            StatusFlag::Negative => 0x80,
        }
    }

    /// Whether the flag is set in the status byte `value`.
    pub fn has_flag(&self, value: u8) -> (set: bool)
        ensures
            set == flag_set(value, *self),
    {
        (value & self.bit_shift()) != 0
    }
}

/// Whether `flag` is set in `status`.
pub open spec fn flag_set(status: u8, flag: StatusFlag) -> bool {
    status & flag.mask() != 0
}

/// The status byte `status` with `flag` forced to `on` and every other flag kept.
pub open spec fn with_flag(status: u8, flag: StatusFlag, on: bool) -> u8 {
    if on {
        status | flag.mask()
    } else {
        status & !flag.mask()
    }
}

/// Setting or clearing one flag changes that flag and no other.
pub proof fn lemma_with_flag(status: u8, flag: StatusFlag, on: bool)
    ensures
        forall|other: StatusFlag|
            #![trigger flag_set(with_flag(status, flag, on), other)]
            flag_set(with_flag(status, flag, on), other) == (if other == flag {
                on
            } else {
                flag_set(status, other)
            }),
{
    assert forall|other: StatusFlag|
        #![trigger flag_set(with_flag(status, flag, on), other)]
        flag_set(with_flag(status, flag, on), other) == (if other == flag {
            on
        } else {
            flag_set(status, other)
        }) by {
        let m = flag.mask();
        let o = other.mask();
        if other == flag {
            assert(m != 0 ==> (status | m) & m != 0 && (status & !m) & m == 0) by (bit_vector);
        } else {
            assert(m & o == 0 ==> (status | m) & o == status & o && (status & !m) & o == status
                & o) by (bit_vector);
            lemma_masks_disjoint(flag, other);
        }
    }
}

/// The masks of two different flags share no bit.
pub proof fn lemma_masks_disjoint(a: StatusFlag, b: StatusFlag)
    requires
        a != b,
    ensures
        a.mask() & b.mask() == 0,
{
    let x = a.mask();
    let y = b.mask();
    assert((x == 1 || x == 2 || x == 4 || x == 8 || x == 16 || x == 32 || x == 64 || x == 128)
        && (y == 1 || y == 2 || y == 4 || y == 8 || y == 16 || y == 32 || y == 64 || y == 128)
        && x != y ==> x & y == 0) by (bit_vector);
}

/// The status byte `status` with `flag` set.
pub fn enable_flag(status: u8, flag: StatusFlag) -> (updated: u8)
    ensures
        updated == with_flag(status, flag, true),
        forall|other: StatusFlag|
            #![trigger flag_set(updated, other)]
            flag_set(updated, other) == (other == flag || flag_set(status, other)),
{
    let updated = status | flag.bit_shift();
    proof {
        lemma_with_flag(status, flag, true);
        assert(updated == with_flag(status, flag, true));
    }
    updated
}

/// The status byte `status` with `flag` cleared.
pub fn disable_flag(status: u8, flag: StatusFlag) -> (updated: u8)
    ensures
        updated == with_flag(status, flag, false),
        forall|other: StatusFlag|
            #![trigger flag_set(updated, other)]
            flag_set(updated, other) == (other != flag && flag_set(status, other)),
{
    let updated = status & !flag.bit_shift();
    proof {
        lemma_with_flag(status, flag, false);
        assert(updated == with_flag(status, flag, false));
    }
    updated
}

} // verus!
