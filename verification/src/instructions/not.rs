use vstd::prelude::*;
use crate::fields::{bits_11_9, bits_8_6, register_11_9, register_8_6};
use crate::registers::{CondFlag, Register, Registers};

verus! {

/// NOT: `dr = !sr`.
#[derive(Clone, Copy, PartialEq, Eq, Debug, Structural)]
pub struct Not {
    pub dr: Register,
    pub sr: Register,
}

impl Not {
    /// The NOT that a word encodes: bits 11 to 9 name the destination, bits 8
    /// to 6 the source.
    pub open spec fn spec_from_bits(bits: u16) -> Not {
        Not { dr: Register::general(bits_11_9(bits)), sr: Register::general(bits_8_6(bits)) }
    }

    /// The word that the instruction writes: the source with every bit
    /// inverted.
    pub open spec fn result(self, registers: Registers) -> u16 {
        !registers.spec_get(self.sr)
    }

    /// The registers after the instruction: the destination holds the
    /// complement and the condition register describes it.
    pub open spec fn spec_execute(self, registers: Registers) -> Registers {
        registers.spec_load(self.dr, self.result(registers))
    }

    /// Decodes a NOT word.
    pub fn from_bits(bits: u16) -> (instruction: Self)
        ensures
            instruction == Not::spec_from_bits(bits),
    {
        let dr = register_11_9(bits);
        let sr = register_8_6(bits);

        Not { dr, sr }
    }

    /// Inverts every bit and sets the condition register by the result.
    pub fn execute(&self, registers: &mut Registers)
        ensures
            *final(registers) == self.spec_execute(*old(registers)),
            final(registers).cond == CondFlag::of(self.result(*old(registers))).spec_bits(),
            final(registers).well_formed(),
            self.dr != Register::COND ==> final(registers).spec_get(self.dr) == self.result(
                *old(registers),
            ),
    {
        let inverted = !registers.get(self.sr);
        registers.load(self.dr, inverted);
    }
}

} // verus!
