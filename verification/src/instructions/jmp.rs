use vstd::prelude::*;
use crate::fields::{bits_8_6, register_8_6};
use crate::registers::{Register, Registers};

verus! {

/// JMP: `pc = base_r`. With R7 as the base this is RET.
#[derive(Clone, Copy, PartialEq, Eq, Debug, Structural)]
pub struct Jmp {
    pub base_r: Register,
}

impl Jmp {
    /// The JMP that a word encodes: bits 8 to 6 name the base register.
    pub open spec fn spec_from_bits(bits: u16) -> Jmp {
        Jmp { base_r: Register::general(bits_8_6(bits)) }
    }

    /// The registers after the instruction: the program counter holds what
    /// the base register holds.
    pub open spec fn spec_execute(self, registers: Registers) -> Registers {
        registers.spec_set(Register::PC, registers.spec_get(self.base_r))
    }

    /// Decodes a JMP word.
    pub fn from_bits(bits: u16) -> (instruction: Self)
        ensures
            instruction == Jmp::spec_from_bits(bits),
    {
        let base_r = register_8_6(bits);

        Jmp { base_r }
    }

    /// Jumps to the address in the base register.
    pub fn execute(&self, registers: &mut Registers)
        ensures
            *final(registers) == self.spec_execute(*old(registers)),
            final(registers).pc == old(registers).spec_get(self.base_r),
    {
        let target = registers.get(self.base_r);
        registers.set(Register::PC, target);
    }
}

} // verus!
