use lc3_vm::error::DecodeError;
use lc3_vm::registers::{CondFlag, Register, Registers};

#[test]
fn test_value_to_register_should_return_register_variant() {
    assert_eq!(
        Register::try_from(0b0000_0000_0000_0000).unwrap(),
        Register::R0
    );
    assert_eq!(
        Register::try_from(0b0000_0000_0000_0001).unwrap(),
        Register::R1
    );
    assert_eq!(
        Register::try_from(0b0000_0000_0000_1000).unwrap(),
        Register::PC
    );
    assert_eq!(
        Register::try_from(0b0000_0000_0000_1001).unwrap(),
        Register::COND
    );
}

#[test]
fn test_value_to_unexistant_register_should_fail() {
    assert!(Register::try_from(0b0000_0000_0000_1111).is_err())
}

#[test]
fn test_get_register_gets_correctly() {
    let registers = Registers {
        r0: 5,
        pc: 0x3000,
        ..Default::default()
    };

    assert_eq!(registers.get(Register::R0), 5);
    assert_eq!(registers.get(Register::PC), 0x3000);
}

#[test]
fn test_set_register_updates_correctly() {
    let mut registers = Registers::default();

    registers.set(Register::R5, 5);
    registers.set(Register::R7, 7);

    assert_eq!(registers.get(Register::R5), 5);
    assert_eq!(registers.get(Register::R7), 7);
}

#[test]
fn test_flag_update() {
    let mut registers = Registers::default();

    registers.set(Register::R0, u16::MAX);
    registers.update_flags(Register::R0);
    assert_eq!(registers.get(Register::COND), CondFlag::NEG.bits());

    registers.set(Register::R0, 0);
    registers.update_flags(Register::R0);
    assert_eq!(registers.get(Register::COND), CondFlag::ZRO.bits());

    registers.set(Register::R0, 10);
    registers.update_flags(Register::R0);
    assert_eq!(registers.get(Register::COND), CondFlag::POS.bits());
}

#[test]
fn every_register_has_its_number() {
    let expected = [
        Register::R0,
        Register::R1,
        Register::R2,
        Register::R3,
        Register::R4,
        Register::R5,
        Register::R6,
        Register::R7,
        Register::PC,
        Register::COND,
    ];
    for (number, register) in expected.iter().enumerate() {
        assert_eq!(Register::try_from(number as u16), Ok(*register));
    }
    assert_eq!(Register::try_from(10), Err(DecodeError::InvalidRegister));
    assert_eq!(Register::try_from(0xFFFF), Err(DecodeError::InvalidRegister));
}

#[test]
fn flag_values() {
    assert_eq!(CondFlag::POS.bits(), 1);
    assert_eq!(CondFlag::ZRO.bits(), 2);
    assert_eq!(CondFlag::NEG.bits(), 4);
    assert_eq!(CondFlag::try_from(1), Ok(CondFlag::POS));
    assert_eq!(CondFlag::try_from(2), Ok(CondFlag::ZRO));
    assert_eq!(CondFlag::try_from(4), Ok(CondFlag::NEG));
    assert_eq!(CondFlag::try_from(0), Err(DecodeError::InvalidConditionFlag(0)));
    assert_eq!(CondFlag::try_from(3), Err(DecodeError::InvalidConditionFlag(3)));
    assert_eq!(
        CondFlag::try_from(0xFFFF),
        Err(DecodeError::InvalidConditionFlag(0xFFFF))
    );
}

#[test]
fn flag_boundaries() {
    let mut registers = Registers::default();
    for (value, flag) in [
        (0x0001, CondFlag::POS),
        (0x7FFF, CondFlag::POS),
        (0x8000, CondFlag::NEG),
        (0xFFFF, CondFlag::NEG),
        (0x0000, CondFlag::ZRO),
    ] {
        registers.load(Register::R4, value);
        assert_eq!(registers.get(Register::R4), value);
        assert_eq!(registers.get(Register::COND), flag.bits());
    }
}

#[test]
fn set_leaves_the_other_registers() {
    let mut registers = Registers::default();
    registers.set(Register::R2, 22);
    registers.set(Register::COND, 4);
    registers.set(Register::PC, 0x1234);
    assert_eq!(
        registers,
        Registers {
            r2: 22,
            cond: 4,
            pc: 0x1234,
            ..Default::default()
        }
    );
}

#[test]
fn program_counter_increment_wraps() {
    let mut registers = Registers::default();
    registers.set(Register::PC, 0x3000);
    registers.program_counter_increment();
    assert_eq!(registers.get(Register::PC), 0x3001);
    registers.set(Register::PC, 0xFFFF);
    registers.program_counter_increment();
    assert_eq!(registers.get(Register::PC), 0);
}

#[test]
fn decode_error_messages() {
    assert_eq!(DecodeError::InvalidRegister.message(), "Invalid register");
    assert_eq!(
        DecodeError::InvalidConditionFlag(3).message(),
        "3 is not a condition flag."
    );
    assert_eq!(
        DecodeError::InvalidConditionFlag(0).message(),
        "0 is not a condition flag."
    );
    assert_eq!(
        DecodeError::InvalidConditionFlag(10).message(),
        "10 is not a condition flag."
    );
    assert_eq!(
        DecodeError::InvalidConditionFlag(65535).message(),
        "65535 is not a condition flag."
    );
    assert_eq!(
        CondFlag::try_from(1007).unwrap_err().message(),
        "1007 is not a condition flag."
    );
    assert_eq!(DecodeError::InvalidTrapCode.message(), "Bad trapcode");
    assert_eq!(DecodeError::ReservedOpcode.message(), "Reserved opcode");
}
