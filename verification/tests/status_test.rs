use nes6502::status::{disable_flag, enable_flag, StatusFlag};

#[test]
fn status_status_test() {
    let data = [
        (StatusFlag::Carry, 0b00000001, 0b11111110),
        (StatusFlag::Zero, 0b00000010, 0b11111101),
        (StatusFlag::Interrupt, 0b00000100, 0b11111011),
        (StatusFlag::Decimal, 0b00001000, 0b11110111),
        (StatusFlag::Break, 0b00010000, 0b11101111),
        (StatusFlag::Constant, 0b00100000, 0b11011111),
        (StatusFlag::Overflow, 0b01000000, 0b10111111),
        (StatusFlag::Negative, 0b10000000, 0b01111111),
    ];

    for case in data {
        let (status, flag_on, flag_off) = case;

        assert!(
            status.has_flag(flag_on),
            "Status {:?} must not have a flag",
            flag_on
        );
        assert!(
            !status.has_flag(flag_off),
            "Status {:?} must have a flag",
            flag_off
        );
    }
}

#[test]
fn status_flag_status_test() {
    let data = [
        (StatusFlag::Carry, 0b00000001, 0b11111110),
        (StatusFlag::Zero, 0b00000010, 0b11111101),
        (StatusFlag::Interrupt, 0b00000100, 0b11111011),
        (StatusFlag::Decimal, 0b00001000, 0b11110111),
        (StatusFlag::Break, 0b00010000, 0b11101111),
        (StatusFlag::Constant, 0b00100000, 0b11011111),
        (StatusFlag::Overflow, 0b01000000, 0b10111111),
        (StatusFlag::Negative, 0b10000000, 0b01111111),
    ];

    for case in data {
        let (status, flag_on, flag_off) = case;

        assert!(
            status.has_flag(flag_on),
            "Status {:?} must not have a flag",
            flag_on
        );
        assert!(
            !status.has_flag(flag_off),
            "Status {:?} must have a flag",
            flag_off
        );
    }
}

#[test]
fn interrupt_flag_is_absent_from_the_empty_status() {
    assert!(!StatusFlag::Interrupt.has_flag(0b00000000));
}

#[test]
fn bit_shift_gives_the_documented_masks() {
    assert_eq!(StatusFlag::Carry.bit_shift(), 0x01);
    assert_eq!(StatusFlag::Zero.bit_shift(), 0x02);
    assert_eq!(StatusFlag::Interrupt.bit_shift(), 0x04);
    assert_eq!(StatusFlag::Decimal.bit_shift(), 0x08);
    assert_eq!(StatusFlag::Break.bit_shift(), 0x10);
    assert_eq!(StatusFlag::Constant.bit_shift(), 0x20);
    assert_eq!(StatusFlag::Overflow.bit_shift(), 0x40);
    assert_eq!(StatusFlag::Negative.bit_shift(), 0x80);
}

#[test]
fn enable_sets_and_disable_clears() {
    assert_eq!(enable_flag(0b0000_0000, StatusFlag::Overflow), 0b0100_0000);
    assert_eq!(enable_flag(0b0100_0001, StatusFlag::Overflow), 0b0100_0001);
    assert_eq!(disable_flag(0b0100_0001, StatusFlag::Overflow), 0b0000_0001);
    // clearing a flag that is clear changes nothing
    assert_eq!(disable_flag(0b0000_0001, StatusFlag::Overflow), 0b0000_0001);
}
