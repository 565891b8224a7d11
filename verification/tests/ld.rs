use lc3_vm::instructions::ld::Ld;
use lc3_vm::memory::Memory;
use lc3_vm::registers::{Register, Registers};

#[test]
fn test_bits_to_ld() {
    // LD   R3, 0x7
    let bits = 0b0010_011_000000111;

    let instruction = Ld::from_bits(bits);

    assert_eq!(instruction.dr, Register::R3);
    assert_eq!(instruction.pc_offset9, 7);
}

#[test]
fn test_ld_works() {
    let mut memory = Memory::default();
    memory.write(0x8000, 9);

    let mut registers = Registers::default();
    registers.set(Register::PC, 0x1000);

    let instruction = Ld {
        dr: Register::R3,
        pc_offset9: 0x7000,
    };

    assert_eq!(registers.get(Register::R3), 0);
    assert_eq!(memory.read(0x8000), 9);

    instruction.execute(&mut registers, &mut memory);

    assert_eq!(registers.get(Register::R3), 9);
}

#[test]
fn ld_sets_flags_and_wraps_the_address() {
    let mut memory = Memory::default();
    memory.write(0x0001, 0x8001);
    let mut registers = Registers::default();
    registers.set(Register::PC, 0xFFFF);
    // LD   R2, 0x2
    let instruction = Ld::from_bits(0b0010_010_000000010);
    instruction.execute(&mut registers, &mut memory);
    assert_eq!(registers.get(Register::R2), 0x8001);
    assert_eq!(registers.get(Register::COND), 4);
}
