use vstd::prelude::*;
use crate::effect::{EffectView, Outcome};
use crate::fields::{bits_11_9, offset9, register_11_9, spec_offset9};
use crate::memory::{Memory, MemoryState};
use crate::registers::{wrapping_sum, CondFlag, Register, Registers};

verus! {

/// LD: `dr = memory[pc + pc_offset9]`.
#[derive(Clone, Copy, PartialEq, Eq, Debug, Structural)]
pub struct Ld {
    pub dr: Register,
    pub pc_offset9: u16,
}

impl Ld {
    /// The LD that a word encodes: bits 11 to 9 name the destination, bits 8
    /// to 0 are a sign-extended offset.
    pub open spec fn spec_from_bits(bits: u16) -> Ld {
        Ld { dr: Register::general(bits_11_9(bits)), pc_offset9: spec_offset9(bits) }
    }

    /// The address that is read: the program counter plus the offset, modulo
    /// 2^16.
    pub open spec fn address(self, registers: Registers) -> u16 {
        wrapping_sum(registers.pc, self.pc_offset9)
    }

    /// The word that is loaded.
    pub open spec fn result(self, registers: Registers, memory: MemoryState) -> u16 {
        memory.read(self.address(registers))
    }

    /// The machine after the instruction: the destination holds the word
    /// read, the condition register describes it, and memory is as the read
    /// leaves it.
    pub open spec fn spec_execute(self, registers: Registers, memory: MemoryState) -> Outcome {
        Outcome {
            registers: registers.spec_load(self.dr, self.result(registers, memory)),
            memory: memory.after_read(self.address(registers)),
            effect: EffectView::quiet(),
        }
    }

    /// Decodes a LD word.
    pub fn from_bits(bits: u16) -> (instruction: Self)
        ensures
            instruction == Ld::spec_from_bits(bits),
    {
        let dr = register_11_9(bits);
        let pc_offset9 = offset9(bits);

        Ld { dr, pc_offset9 }
    }

    /// Loads the word at the address and sets the condition register by it.
    pub fn execute(&self, registers: &mut Registers, memory: &mut Memory)
        ensures
            *final(registers) == self.spec_execute(*old(registers), old(memory)@).registers,
            final(memory)@ == self.spec_execute(*old(registers), old(memory)@).memory,
            final(registers).cond == CondFlag::of(
                self.result(*old(registers), old(memory)@),
            ).spec_bits(),
            final(registers).well_formed(),
            self.dr != Register::COND ==> final(registers).spec_get(self.dr) == self.result(
                *old(registers),
                old(memory)@,
            ),
    {
        let val = memory.read(registers.get(Register::PC).wrapping_add(self.pc_offset9));
        registers.load(self.dr, val);
    }
}

} // verus!
