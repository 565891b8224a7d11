use lc3_vm::instructions::and::{And, AndImmediate, AndRegister};
use lc3_vm::registers::{Register, Registers};

#[test]
fn bits_to_and_imm() {
    // AND  R3, R2, #-6
    let instruction = And::from_bits(0b0101_011_010_1_11010);
    match instruction {
        And::AddImm(args) => {
            assert_eq!(args.dr, Register::R3);
            assert_eq!(args.sr1, Register::R2);
            assert_eq!(args.imm5, 0xFFFA);
        }
        _ => panic!("Instruction should be in the immediate mode variant."),
    }
}

#[test]
fn bits_to_and_reg() {
    // AND  R7, R0, R6
    let instruction = And::from_bits(0b0101_111_000_0_00_110);
    assert_eq!(
        instruction,
        And::AddReg(AndRegister {
            dr: Register::R7,
            sr1: Register::R0,
            sr2: Register::R6,
        })
    );
}

#[test]
fn and_immediate_execute() {
    let mut registers = Registers::default();
    registers.set(Register::R1, 0b1111_0000_1010_1010);
    let instruction = And::AddImm(AndImmediate {
        dr: Register::R0,
        sr1: Register::R1,
        imm5: 0b0000_0000_0000_1111,
    });
    instruction.execute(&mut registers);
    assert_eq!(registers.get(Register::R0), 0b1010);
    assert_eq!(registers.get(Register::COND), 1);
}

#[test]
fn and_register_execute_clears() {
    let mut registers = Registers::default();
    registers.set(Register::R1, 0xF0F0);
    registers.set(Register::R2, 0x0F0F);
    registers.set(Register::R0, 77);
    let instruction = And::AddReg(AndRegister {
        dr: Register::R0,
        sr1: Register::R1,
        sr2: Register::R2,
    });
    instruction.execute(&mut registers);
    assert_eq!(registers.get(Register::R0), 0);
    assert_eq!(registers.get(Register::COND), 2);
}
