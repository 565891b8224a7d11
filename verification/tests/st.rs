use lc3_vm::instructions::st::St;
use lc3_vm::memory::Memory;
use lc3_vm::registers::{Register, Registers};

#[test]
fn test_bits_to_st() {
    // ST   R3, 0x7
    let bits = 0b0011_011_000000111;

    let instruction = St::from_bits(bits);

    assert_eq!(instruction.sr, Register::R3);
    assert_eq!(instruction.pc_offset9, 7);
}

#[test]
fn test_st_works() {
    let mut memory = Memory::default();

    let mut registers = Registers::default();
    registers.set(Register::PC, 0x3000);
    registers.set(Register::R3, 0x99);

    let instruction = St {
        sr: Register::R3,
        pc_offset9: 0x7,
    };

    assert_eq!(memory.read(0x3007), 0);

    instruction.execute(&mut registers, &mut memory);

    assert_eq!(memory.read(0x3007), 0x99);
}

#[test]
fn st_wraps_the_address_and_keeps_the_registers() {
    let mut memory = Memory::default();
    let mut registers = Registers::default();
    registers.set(Register::PC, 0xFFFE);
    registers.set(Register::R3, 0x99);
    registers.set(Register::COND, 2);
    let before = registers;
    let instruction = St {
        sr: Register::R3,
        pc_offset9: 0x7,
    };
    instruction.execute(&mut registers, &mut memory);
    assert_eq!(memory.read(0x0005), 0x99);
    assert_eq!(registers, before);
}
