use lc3_vm::instructions::lea::Lea;
use lc3_vm::registers::{Register, Registers};

#[test]
fn test_bits_to_lea() {
    // LEA  R3, 0x7
    let bits = 0b1110_011_000000111;

    let instruction = Lea::from_bits(bits);

    assert_eq!(instruction.dr, Register::R3);
    assert_eq!(instruction.pc_offset9, 7);
}

#[test]
fn test_lea_works() {
    let mut registers = Registers::default();
    registers.set(Register::PC, 0x1000);

    let instruction = Lea {
        dr: Register::R3,
        pc_offset9: 0x7000,
    };

    assert_eq!(registers.get(Register::R3), 0);

    instruction.execute(&mut registers);

    assert_eq!(registers.get(Register::R3), 0x8000);
}

#[test]
fn lea_sets_flags_and_wraps() {
    let mut registers = Registers::default();
    registers.set(Register::PC, 0x1000);
    let instruction = Lea {
        dr: Register::R3,
        pc_offset9: 0x7000,
    };
    instruction.execute(&mut registers);
    assert_eq!(registers.get(Register::COND), 4);

    registers.set(Register::PC, 0xFFFF);
    let instruction = Lea {
        dr: Register::R3,
        pc_offset9: 1,
    };
    instruction.execute(&mut registers);
    assert_eq!(registers.get(Register::R3), 0);
    assert_eq!(registers.get(Register::COND), 2);
}
