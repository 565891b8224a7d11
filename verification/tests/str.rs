use lc3_vm::instructions::str::Str;
use lc3_vm::memory::Memory;
use lc3_vm::registers::{Register, Registers};

#[test]
fn test_bits_to_str() {
    // STR  R3, R6, 0x7
    let bits = 0b0111_011_110_000111;

    let instruction = Str::from_bits(bits);

    assert_eq!(instruction.sr, Register::R3);
    assert_eq!(instruction.base_r, Register::R6);
    assert_eq!(instruction.offset6, 7);
}

#[test]
fn test_str_works() {
    let mut memory = Memory::default();

    let mut registers = Registers::default();
    registers.set(Register::R6, 0x3000);
    registers.set(Register::R3, 0x99);

    let instruction = Str {
        sr: Register::R3,
        base_r: Register::R6,
        offset6: 0x7,
    };

    assert_eq!(memory.read(0x3007), 0);

    instruction.execute(&mut registers, &mut memory);

    assert_eq!(memory.read(0x3007), 0x99);
}

#[test]
fn str_with_negative_offset_wraps() {
    let mut memory = Memory::default();
    let mut registers = Registers::default();
    registers.set(Register::R6, 0x0001);
    registers.set(Register::R3, 0x99);
    // STR  R3, R6, -2
    let instruction = Str::from_bits(0b0111_011_110_111110);
    assert_eq!(instruction.offset6, 0xFFFE);
    instruction.execute(&mut registers, &mut memory);
    assert_eq!(memory.read(0xFFFF), 0x99);
}
