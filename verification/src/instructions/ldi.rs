use vstd::prelude::*;
use crate::effect::{EffectView, Outcome};
use crate::fields::{bits_11_9, offset9, register_11_9, spec_offset9};
use crate::memory::{Memory, MemoryState};
use crate::registers::{wrapping_sum, CondFlag, Register, Registers, KBSR};

verus! {

/// LDI: `dr = memory[memory[pc + pc_offset9]]`.
#[derive(Clone, Copy, PartialEq, Eq, Debug, Structural)]
pub struct Ldi {
    pub dr: Register,
    pub pc_offset9: u16,
}

impl Ldi {
    /// The LDI that a word encodes: bits 11 to 9 name the destination, bits 8
    /// to 0 are a sign-extended offset.
    pub open spec fn spec_from_bits(bits: u16) -> Ldi {
        Ldi { dr: Register::general(bits_11_9(bits)), pc_offset9: spec_offset9(bits) }
    }

    /// The address of the pointer: the program counter plus the offset,
    /// modulo 2^16.
    pub open spec fn pointer(self, registers: Registers) -> u16 {
        wrapping_sum(registers.pc, self.pc_offset9)
    }

    /// The address that is read at last: the word that the pointer's cell
    /// holds.
    pub open spec fn address(self, registers: Registers, memory: MemoryState) -> u16 {
        memory.read(self.pointer(registers))
    }

    /// The word that is loaded: the one at the address, read after the
    /// pointer was.
    pub open spec fn result(self, registers: Registers, memory: MemoryState) -> u16 {
        memory.after_read(self.pointer(registers)).read(self.address(registers, memory))
    }

    /// The machine after the instruction: the destination holds the word
    /// read, the condition register describes it, and memory is as the two
    /// reads leave it.
    pub open spec fn spec_execute(self, registers: Registers, memory: MemoryState) -> Outcome {
        Outcome {
            registers: registers.spec_load(self.dr, self.result(registers, memory)),
            memory: memory.after_read(self.pointer(registers)).after_read(
                self.address(registers, memory),
            ),
            effect: EffectView::quiet(),
        }
    }

    /// Decodes a LDI word.
    pub fn from_bits(bits: u16) -> (instruction: Self)
        ensures
            instruction == Ldi::spec_from_bits(bits),
    {
        let dr = register_11_9(bits);
        let pc_offset9 = offset9(bits);

        Ldi { dr, pc_offset9 }
    }

    /// Loads the word whose address stands at the pointer and sets the
    /// condition register by it.
    pub fn execute(&self, registers: &mut Registers, memory: &mut Memory)
        ensures
            *final(registers) == self.spec_execute(*old(registers), old(memory)@).registers,
            final(memory)@ == self.spec_execute(*old(registers), old(memory)@).memory,
            final(registers).cond == CondFlag::of(
                self.result(*old(registers), old(memory)@),
            ).spec_bits(),
            final(registers).well_formed(),
            self.dr != Register::COND ==> final(registers).spec_get(self.dr) == self.result(
                *old(registers),
                old(memory)@,
            ),
    {
        let inner = memory.read(registers.get(Register::PC).wrapping_add(self.pc_offset9));
        let val = memory.read(inner);
        registers.load(self.dr, val);
    }

    /// Double indirection: where the cell at the program counter plus the
    /// offset was written with an address, and the cell at that address with
    /// a value, the instruction loads the value. The two cells are different
    /// ones, and neither is the keyboard status register, which no write
    /// survives.
    pub proof fn lemma_double_indirection(
        self,
        registers: Registers,
        memory: MemoryState,
        address: u16,
        value: u16,
    )
        requires
            memory.well_formed(),
            self.pointer(registers) != KBSR,
            address != KBSR,
            address != self.pointer(registers),
            self.dr != Register::COND,
        ensures
            self.spec_execute(
                registers,
                memory.write(self.pointer(registers), address).write(address, value),
            ).registers.spec_get(self.dr) == value,
    {
    }
}

} // verus!
