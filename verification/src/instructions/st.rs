use vstd::prelude::*;
use crate::effect::{EffectView, Outcome};
use crate::fields::{bits_11_9, offset9, register_11_9, spec_offset9};
use crate::memory::{Memory, MemoryState};
use crate::registers::{wrapping_sum, Register, Registers};

verus! {

/// ST: `memory[pc + pc_offset9] = sr`.
#[derive(Clone, Copy, PartialEq, Eq, Debug, Structural)]
pub struct St {
    pub sr: Register,
    pub pc_offset9: u16,
}

impl St {
    /// The ST that a word encodes: bits 11 to 9 name the source, bits 8 to 0
    /// are a sign-extended offset.
    pub open spec fn spec_from_bits(bits: u16) -> St {
        St { sr: Register::general(bits_11_9(bits)), pc_offset9: spec_offset9(bits) }
    }

    /// The address that is written: the program counter plus the offset,
    /// modulo 2^16.
    pub open spec fn address(self, registers: Registers) -> u16 {
        wrapping_sum(registers.pc, self.pc_offset9)
    }

    /// The machine after the instruction: the cell at the address holds what
    /// the source register holds, and the registers are as they were.
    pub open spec fn spec_execute(self, registers: Registers, memory: MemoryState) -> Outcome {
        Outcome {
            registers,
            memory: memory.write(self.address(registers), registers.spec_get(self.sr)),
            effect: EffectView::quiet(),
        }
    }

    /// Decodes a ST word.
    pub fn from_bits(bits: u16) -> (instruction: Self)
        ensures
            instruction == St::spec_from_bits(bits),
    {
        let sr = register_11_9(bits);
        let pc_offset9 = offset9(bits);

        St { sr, pc_offset9 }
    }

    /// Stores the source register at the address.
    pub fn execute(&self, registers: &mut Registers, memory: &mut Memory)
        ensures
            *final(registers) == *old(registers),
            final(memory)@ == self.spec_execute(*old(registers), old(memory)@).memory,
    {
        let val = registers.get(self.sr);
        memory.write(registers.get(Register::PC).wrapping_add(self.pc_offset9), val);
    }
}

} // verus!
