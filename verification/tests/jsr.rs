use lc3_vm::instructions::jsr::{Jsr, JsrOffset, JsrRegister};
use lc3_vm::registers::{Register, Registers};

#[test]
fn test_bits_to_jsr_offset() {
    // JSR  0x1
    let bits = 0b0100_1_00000000001;

    let instruction = Jsr::from_bits(bits);

    match instruction {
        Jsr::JsrOffset(args) => {
            assert_eq!(args.pc_offset11, 1);
        }
        _ => panic!("Instruction should be in the offset mode variant."),
    }
}

#[test]
fn test_bits_to_jsr_register() {
    // JSR  R1
    let bits = 0b0100_0_00_001_000000;

    let instruction = Jsr::from_bits(bits);

    match instruction {
        Jsr::JsrRegister(args) => {
            assert_eq!(args.base_r, Register::R1);
        }
        _ => panic!("Instruction should be in the register mode variant."),
    }
}

#[test]
fn test_jsr_register() {
    let mut registers = Registers::default();

    registers.set(Register::R5, 0x7000);

    let instruction = Jsr::JsrRegister(JsrRegister {
        base_r: Register::R5,
    });

    assert_eq!(registers.get(Register::PC), 0);

    instruction.execute(&mut registers);

    assert_eq!(registers.get(Register::PC), 0x7000);
}

#[test]
fn test_jsr_offset() {
    let mut registers = Registers::default();

    let instruction = Jsr::JsrOffset(JsrOffset {
        pc_offset11: 0x7000,
    });

    assert_eq!(registers.get(Register::PC), 0);

    instruction.execute(&mut registers);

    assert_eq!(registers.get(Register::PC), 0x7000);
}

#[test]
fn jsr_saves_the_program_counter_in_r7() {
    let mut registers = Registers::default();
    registers.set(Register::PC, 0x3001);
    // JSR  -2
    let instruction = Jsr::from_bits(0b0100_1_11111111110);
    instruction.execute(&mut registers);
    assert_eq!(registers.get(Register::PC), 0x2FFF);
    assert_eq!(registers.get(Register::R7), 0x3001);
}

#[test]
fn jsrr_through_r7_jumps_to_what_r7_held() {
    let mut registers = Registers::default();
    registers.set(Register::PC, 0x3001);
    registers.set(Register::R7, 0x5000);
    let instruction = Jsr::from_bits(0b0100_0_00_111_000000);
    instruction.execute(&mut registers);
    assert_eq!(registers.get(Register::PC), 0x5000);
    assert_eq!(registers.get(Register::R7), 0x3001);
}
