use vstd::prelude::*;
use crate::fields::{bits_11_9, offset9, register_11_9, spec_offset9};
use crate::registers::{wrapping_sum, CondFlag, Register, Registers};

verus! {

/// LEA: `dr = pc + pc_offset9`.
#[derive(Clone, Copy, PartialEq, Eq, Debug, Structural)]
pub struct Lea {
    pub dr: Register,
    pub pc_offset9: u16,
}

impl Lea {
    /// The LEA that a word encodes: bits 11 to 9 name the destination, bits 8
    /// to 0 are a sign-extended offset.
    pub open spec fn spec_from_bits(bits: u16) -> Lea {
        Lea { dr: Register::general(bits_11_9(bits)), pc_offset9: spec_offset9(bits) }
    }

    /// The address that the instruction writes: the program counter plus the
    /// offset, modulo 2^16.
    pub open spec fn result(self, registers: Registers) -> u16 {
        wrapping_sum(registers.pc, self.pc_offset9)
    }

    /// The registers after the instruction: the destination holds the
    /// address and the condition register describes it.
    pub open spec fn spec_execute(self, registers: Registers) -> Registers {
        registers.spec_load(self.dr, self.result(registers))
    }

    /// Decodes a LEA word.
    pub fn from_bits(bits: u16) -> (instruction: Self)
        ensures
            instruction == Lea::spec_from_bits(bits),
    {
        let dr = register_11_9(bits);
        let pc_offset9 = offset9(bits);

        Lea { dr, pc_offset9 }
    }

    /// Computes the address, reads no memory, and sets the condition register
    /// by the address.
    pub fn execute(&self, registers: &mut Registers)
        ensures
            *final(registers) == self.spec_execute(*old(registers)),
            final(registers).cond == CondFlag::of(self.result(*old(registers))).spec_bits(),
            final(registers).well_formed(),
            self.dr != Register::COND ==> final(registers).spec_get(self.dr) == self.result(
                *old(registers),
            ),
    {
        let address = registers.get(Register::PC).wrapping_add(self.pc_offset9);
        registers.load(self.dr, address);
    }
}

} // verus!
