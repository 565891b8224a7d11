use lc3_vm::instructions::br::Br;
use lc3_vm::registers::{CondFlag, Register, Registers};

#[test]
fn test_bits_to_br() {
    // BRnzp    0x9
    let bits = 0b0000_111_000001001;

    let instruction = Br::from_bits(bits);

    assert!(instruction.n);
    assert!(instruction.p);
    assert!(instruction.z);
    assert_eq!(instruction.pc_offset9, 9);
}

#[test]
fn test_br_unconditional() {
    // BR   0x9
    let bits = 0b0000_000_000001001;

    let instruction = Br::from_bits(bits);
    assert!(!instruction.n);
    assert!(!instruction.p);
    assert!(!instruction.z);
    assert_eq!(instruction.pc_offset9, 9);

    let mut registers = Registers::default();
    registers.set(Register::PC, 0x9000);
    registers.set(Register::COND, CondFlag::ZRO.bits());

    instruction.execute(&mut registers);

    assert_eq!(registers.get(Register::PC), 0x9009);
}

#[test]
fn test_br_neg_flag() {
    // BRn   0x9
    let bits = 0b0000_100_000001001;

    let instruction = Br::from_bits(bits);
    assert_eq!(instruction.pc_offset9, 9);

    let mut registers = Registers::default();
    registers.set(Register::PC, 0x9000);
    registers.set(Register::COND, CondFlag::NEG.bits());

    instruction.execute(&mut registers);

    assert_eq!(registers.get(Register::PC), 0x9009);
}

#[test]
fn test_br_pos_flag() {
    // BRp   0x9
    let bits = 0b0000_001_000001001;

    let instruction = Br::from_bits(bits);
    assert_eq!(instruction.pc_offset9, 9);

    let mut registers = Registers::default();
    registers.set(Register::PC, 0x9000);
    registers.set(Register::COND, CondFlag::POS.bits());

    instruction.execute(&mut registers);

    assert_eq!(registers.get(Register::PC), 0x9009);
}

#[test]
fn test_br_zro_flag() {
    // BRz   0x9
    let bits = 0b0000_010_000001001;

    let instruction = Br::from_bits(bits);
    assert_eq!(instruction.pc_offset9, 9);

    let mut registers = Registers::default();
    registers.set(Register::PC, 0x9000);
    registers.set(Register::COND, CondFlag::ZRO.bits());

    instruction.execute(&mut registers);

    assert_eq!(registers.get(Register::PC), 0x9009);
}

#[test]
fn br_not_taken_when_flag_differs() {
    // BRn   0x9
    let instruction = Br::from_bits(0b0000_100_000001001);
    let mut registers = Registers::default();
    registers.set(Register::PC, 0x9000);
    registers.set(Register::COND, CondFlag::ZRO.bits());

    instruction.execute(&mut registers);

    assert_eq!(registers.get(Register::PC), 0x9000);
}

#[test]
fn br_without_flags_is_taken_whatever_the_condition() {
    let instruction = Br::from_bits(0b0000_000_000001001);
    for cond in [CondFlag::POS.bits(), CondFlag::ZRO.bits(), CondFlag::NEG.bits(), 0] {
        let mut registers = Registers::default();
        registers.set(Register::PC, 0x9000);
        registers.set(Register::COND, cond);
        instruction.execute(&mut registers);
        assert_eq!(registers.get(Register::PC), 0x9009);
        assert_eq!(registers.get(Register::COND), cond);
    }
}

#[test]
fn br_backwards_wraps() {
    // BRnzp  -1
    let instruction = Br::from_bits(0b0000_111_111111111);
    assert_eq!(instruction.pc_offset9, 0xFFFF);
    let mut registers = Registers::default();
    registers.set(Register::PC, 0x0000);
    registers.set(Register::COND, CondFlag::POS.bits());
    instruction.execute(&mut registers);
    assert_eq!(registers.get(Register::PC), 0xFFFF);
}

#[test]
fn br_with_condition_register_that_holds_no_flag() {
    // BRnzp   0x9
    let instruction = Br::from_bits(0b0000_111_000001001);
    let mut registers = Registers::default();
    registers.set(Register::PC, 0x9000);
    registers.set(Register::COND, 3);
    instruction.execute(&mut registers);
    assert_eq!(registers.get(Register::PC), 0x9000);
}
