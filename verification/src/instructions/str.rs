use vstd::prelude::*;
use crate::effect::{EffectView, Outcome};
use crate::fields::{bits_11_9, bits_8_6, offset6, register_11_9, register_8_6, spec_offset6};
use crate::memory::{Memory, MemoryState};
use crate::registers::{wrapping_sum, Register, Registers};

verus! {

/// STR: `memory[base_r + offset6] = sr`.
#[derive(Clone, Copy, PartialEq, Eq, Debug, Structural)]
pub struct Str {
    pub sr: Register,
    pub base_r: Register,
    pub offset6: u16,
}

impl Str {
    /// The STR that a word encodes: bits 11 to 9 name the source, bits 8 to 6
    /// the base register, bits 5 to 0 are a sign-extended offset.
    pub open spec fn spec_from_bits(bits: u16) -> Str {
        Str {
            sr: Register::general(bits_11_9(bits)),
            base_r: Register::general(bits_8_6(bits)),
            offset6: spec_offset6(bits),
        }
    }

    /// The address that is written: the base register plus the offset, modulo
    /// 2^16.
    pub open spec fn address(self, registers: Registers) -> u16 {
        wrapping_sum(registers.spec_get(self.base_r), self.offset6)
    }

    /// The machine after the instruction: the cell at the address holds what
    /// the source register holds, and the registers are as they were.
    pub open spec fn spec_execute(self, registers: Registers, memory: MemoryState) -> Outcome {
        Outcome {
            registers,
            memory: memory.write(self.address(registers), registers.spec_get(self.sr)),
            effect: EffectView::quiet(),
        }
    }

    /// Decodes a STR word.
    pub fn from_bits(bits: u16) -> (instruction: Self)
        ensures
            instruction == Str::spec_from_bits(bits),
    {
        let sr = register_11_9(bits);
        let base_r = register_8_6(bits);
        let offset6 = offset6(bits);

        Str { sr, base_r, offset6 }
    }

    /// Stores the source register at the address.
    pub fn execute(&self, registers: &mut Registers, memory: &mut Memory)
        ensures
            *final(registers) == *old(registers),
            final(memory)@ == self.spec_execute(*old(registers), old(memory)@).memory,
    {
        let val = registers.get(self.sr);
        memory.write(registers.get(self.base_r).wrapping_add(self.offset6), val);
    }
}

} // verus!
