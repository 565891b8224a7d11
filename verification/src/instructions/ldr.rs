use vstd::prelude::*;
use crate::effect::{EffectView, Outcome};
use crate::fields::{bits_11_9, bits_8_6, offset6, register_11_9, register_8_6, spec_offset6};
use crate::memory::{Memory, MemoryState};
use crate::registers::{wrapping_sum, CondFlag, Register, Registers};

verus! {

/// LDR: `dr = memory[base_r + offset6]`.
#[derive(Clone, Copy, PartialEq, Eq, Debug, Structural)]
pub struct Ldr {
    pub dr: Register,
    pub base_r: Register,
    pub offset6: u16,
}

impl Ldr {
    /// The LDR that a word encodes: bits 11 to 9 name the destination, bits 8
    /// to 6 the base register, bits 5 to 0 are a sign-extended offset.
    pub open spec fn spec_from_bits(bits: u16) -> Ldr {
        Ldr {
            dr: Register::general(bits_11_9(bits)),
            base_r: Register::general(bits_8_6(bits)),
            offset6: spec_offset6(bits),
        }
    }

    /// The address that is read: the base register plus the offset, modulo
    /// 2^16.
    pub open spec fn address(self, registers: Registers) -> u16 {
        wrapping_sum(registers.spec_get(self.base_r), self.offset6)
    }

    /// The word that is loaded.
    pub open spec fn result(self, registers: Registers, memory: MemoryState) -> u16 {
        memory.read(self.address(registers))
    }

    /// The machine after the instruction: the destination holds the word
    /// read, the condition register describes it, and memory is as the read
    /// leaves it.
    pub open spec fn spec_execute(self, registers: Registers, memory: MemoryState) -> Outcome {
        Outcome {
            registers: registers.spec_load(self.dr, self.result(registers, memory)),
            memory: memory.after_read(self.address(registers)),
            effect: EffectView::quiet(),
        }
    }

    /// Decodes a LDR word.
    pub fn from_bits(bits: u16) -> (instruction: Self)
        ensures
            instruction == Ldr::spec_from_bits(bits),
    {
        let dr = register_11_9(bits);
        let base_r = register_8_6(bits);
        let offset6 = offset6(bits);

        Ldr { dr, base_r, offset6 }
    }

    /// Loads the word at the address and sets the condition register by it.
    pub fn execute(&self, registers: &mut Registers, memory: &mut Memory)
        ensures
            *final(registers) == self.spec_execute(*old(registers), old(memory)@).registers,
            final(memory)@ == self.spec_execute(*old(registers), old(memory)@).memory,
            final(registers).cond == CondFlag::of(
                self.result(*old(registers), old(memory)@),
            ).spec_bits(),
            final(registers).well_formed(),
            self.dr != Register::COND ==> final(registers).spec_get(self.dr) == self.result(
                *old(registers),
                old(memory)@,
            ),
    {
        let val = memory.read(registers.get(self.base_r).wrapping_add(self.offset6));
        registers.load(self.dr, val);
    }
}

} // verus!
