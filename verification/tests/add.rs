use lc3_vm::instructions::add::{Add, AddImmediate, AddRegister};
use lc3_vm::registers::{Register, Registers};

#[test]
fn test_bits_to_add_imm() {
    // ADD  R3, R2, 1
    let bits = 0b0001_011_010_1_00001;

    let instruction = Add::from_bits(bits);

    match instruction {
        Add::AddImm(args) => {
            assert_eq!(args.dr, Register::R3);
            assert_eq!(args.sr1, Register::R2);
            assert_eq!(args.imm5, 0b0000_0000_0000_0001);
        }
        _ => panic!("Instruction should be in the immediate mode variant."),
    }
}

#[test]
fn test_bits_to_add_reg() {
    // ADD  R3, R2, R5
    let bits = 0b0001_011_010_0_00_101;

    let instruction = Add::from_bits(bits);

    match instruction {
        Add::AddReg(args) => {
            assert_eq!(args.dr, Register::R3);
            assert_eq!(args.sr1, Register::R2);
            assert_eq!(args.sr2, Register::R5);
        }
        _ => panic!("Instruction should be in the register mode variant."),
    }
}

#[test]
fn test_add_immediate_execute() {
    let mut registers = Registers::default();

    registers.set(Register::R1, 5);

    let instruction = Add::AddImm(AddImmediate {
        dr: Register::R0,
        sr1: Register::R1,
        imm5: 10,
    });

    instruction.execute(&mut registers);

    assert_eq!(registers.get(Register::R0), 15);
}

#[test]
fn test_add_register_execute() {
    let mut registers = Registers::default();

    registers.set(Register::R1, 5);
    registers.set(Register::R2, 10);

    let instruction = Add::AddReg(AddRegister {
        dr: Register::R0,
        sr1: Register::R1,
        sr2: Register::R2,
    });

    instruction.execute(&mut registers);

    assert_eq!(registers.get(Register::R0), 15);
}

#[test]
fn add_immediate_is_sign_extended() {
    // ADD  R1, R1, -1
    let instruction = Add::from_bits(0b0001_001_001_1_11111);
    match instruction {
        Add::AddImm(args) => assert_eq!(args.imm5, 0xFFFF),
        _ => panic!("Instruction should be in the immediate mode variant."),
    }
    let mut registers = Registers::default();
    registers.set(Register::R1, 7);
    instruction.execute(&mut registers);
    assert_eq!(registers.get(Register::R1), 6);
    assert_eq!(registers.get(Register::COND), 1);
}

#[test]
fn add_wraps_and_sets_zero_flag() {
    let mut registers = Registers::default();
    registers.set(Register::R2, 0xFFFF);
    // ADD  R3, R2, 1
    let instruction = Add::from_bits(0b0001_011_010_1_00001);
    instruction.execute(&mut registers);
    assert_eq!(registers.get(Register::R3), 0x0000);
    assert_eq!(registers.get(Register::COND), 2);
}

#[test]
fn add_sets_negative_flag() {
    let mut registers = Registers::default();
    registers.set(Register::R1, 0x7FFF);
    registers.set(Register::R2, 1);
    let instruction = Add::AddReg(AddRegister {
        dr: Register::R0,
        sr1: Register::R1,
        sr2: Register::R2,
    });
    instruction.execute(&mut registers);
    assert_eq!(registers.get(Register::R0), 0x8000);
    assert_eq!(registers.get(Register::COND), 4);
}
