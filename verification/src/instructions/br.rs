use vstd::prelude::*;
use crate::fields::{bit_set, flag, offset9, spec_offset9};
use crate::registers::{wrapping_sum, CondFlag, Register, Registers};

verus! {

/// BR: `pc = pc + pc_offset9` where the condition register holds one of the
/// flags that the instruction names, or where it names none.
#[derive(Clone, Copy, PartialEq, Eq, Debug, Structural)]
pub struct Br {
    pub n: bool,
    pub z: bool,
    pub p: bool,
    pub pc_offset9: u16,
}

impl Br {
    /// The BR that a word encodes: bits 11, 10 and 9 name the flags NEG, ZRO
    /// and POS, bits 8 to 0 are a sign-extended offset.
    pub open spec fn spec_from_bits(bits: u16) -> Br {
        Br {
            n: bit_set(bits, 11),
            z: bit_set(bits, 10),
            p: bit_set(bits, 9),
            pc_offset9: spec_offset9(bits),
        }
    }

    /// Whether the branch is taken: it names no flag, or it names the flag
    /// that the condition register holds.
    pub open spec fn taken(self, registers: Registers) -> bool {
        ||| !(self.n || self.z || self.p)
        ||| self.p && registers.cond == CondFlag::POS.spec_bits()
        ||| self.z && registers.cond == CondFlag::ZRO.spec_bits()
        ||| self.n && registers.cond == CondFlag::NEG.spec_bits()
    }

    /// The registers after the instruction: where the branch is taken, the
    /// program counter is moved by the offset, modulo 2^16; otherwise nothing
    /// changes.
    pub open spec fn spec_execute(self, registers: Registers) -> Registers {
        if self.taken(registers) {
            registers.spec_set(Register::PC, wrapping_sum(registers.pc, self.pc_offset9))
        } else {
            registers
        }
    }

    /// Decodes a BR word.
    pub fn from_bits(bits: u16) -> (instruction: Self)
        ensures
            instruction == Br::spec_from_bits(bits),
    {
        let n = flag(bits, 11);
        let z = flag(bits, 10);
        let p = flag(bits, 9);

        let pc_offset9 = offset9(bits);

        Br { n, z, p, pc_offset9 }
    }

    /// Branches where the condition holds. A condition register that holds
    /// none of the three flag values matches no flag.
    pub fn execute(&self, registers: &mut Registers)
        ensures
            *final(registers) == self.spec_execute(*old(registers)),
            final(registers).cond == old(registers).cond,
    {
        let branch = match CondFlag::try_from(registers.get(Register::COND)) {
            Ok(CondFlag::POS) => self.p,
            Ok(CondFlag::ZRO) => self.z,
            Ok(CondFlag::NEG) => self.n,
            Err(_) => false,
        };

        // If the branch condition is satisfied, or branch unconditional.
        if branch || !(self.n || self.p || self.z) {
            let target = registers.get(Register::PC).wrapping_add(self.pc_offset9);
            registers.set(Register::PC, target);
        }
    }

    /// With the condition register at ZRO, a branch that names only ZRO is
    /// taken and one that names only NEG is not; a branch that names no flag
    /// is taken whatever the condition register holds.
    pub proof fn lemma_branch_conditions(registers: Registers, pc_offset9: u16)
        ensures
            registers.cond == CondFlag::ZRO.spec_bits() ==> (Br {
                n: false,
                z: true,
                p: false,
                pc_offset9,
            }).taken(registers),
            registers.cond == CondFlag::ZRO.spec_bits() ==> !(Br {
                n: true,
                z: false,
                p: false,
                pc_offset9,
            }).taken(registers),
            (Br { n: false, z: false, p: false, pc_offset9 }).taken(registers),
    {
    }
}

} // verus!
