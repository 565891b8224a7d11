use vstd::prelude::*;
use crate::fields::{bit_set, bits_11_9, bits_2_0, bits_8_6, flag, imm5, register_11_9, register_2_0, register_8_6, spec_imm5};
use crate::registers::{wrapping_sum, CondFlag, Register, Registers};

verus! {

/// ADD with an immediate: `dr = sr1 + imm5`.
#[derive(Clone, Copy, PartialEq, Eq, Debug, Structural)]
pub struct AddImmediate {
    pub dr: Register,
    pub sr1: Register,
    pub imm5: u16,
}

/// ADD with two registers: `dr = sr1 + sr2`.
#[derive(Clone, Copy, PartialEq, Eq, Debug, Structural)]
pub struct AddRegister {
    pub dr: Register,
    pub sr1: Register,
    pub sr2: Register,
}

/// The two forms of ADD.
#[derive(Clone, Copy, PartialEq, Eq, Debug, Structural)]
pub enum Add {
    AddImm(AddImmediate),
    AddReg(AddRegister),
}

impl Add {
    /// The ADD that a word encodes: bits 11 to 9 name the destination, bits 8
    /// to 6 the first source; with bit 5 set, bits 4 to 0 are a sign-extended
    /// immediate, otherwise bits 2 to 0 name the second source.
    pub open spec fn spec_from_bits(bits: u16) -> Add {
        let dr = Register::general(bits_11_9(bits));
        let sr1 = Register::general(bits_8_6(bits));
        if bit_set(bits, 5) {
            Add::AddImm(AddImmediate { dr, sr1, imm5: spec_imm5(bits) })
        } else {
            Add::AddReg(AddRegister { dr, sr1, sr2: Register::general(bits_2_0(bits)) })
        }
    }

    /// The register that the instruction writes.
    pub open spec fn dr(self) -> Register {
        match self {
            Add::AddImm(args) => args.dr,
            Add::AddReg(args) => args.dr,
        }
    }

    /// The sum that the instruction writes: the first source plus the
    /// immediate or the second source, modulo 2^16.
    pub open spec fn result(self, registers: Registers) -> u16 {
        match self {
            Add::AddImm(args) => wrapping_sum(registers.spec_get(args.sr1), args.imm5),
            Add::AddReg(args) => wrapping_sum(
                registers.spec_get(args.sr1),
                registers.spec_get(args.sr2),
            ),
        }
    }

    /// The registers after the instruction: the destination holds the sum and
    /// the condition register describes it.
    pub open spec fn spec_execute(self, registers: Registers) -> Registers {
        registers.spec_load(self.dr(), self.result(registers))
    }

    /// Decodes an ADD word.
    pub fn from_bits(bits: u16) -> (instruction: Self)
        ensures
            instruction == Add::spec_from_bits(bits),
    {
        let dr = register_11_9(bits);
        let sr1 = register_8_6(bits);
        let imm = flag(bits, 5);

        if imm {
            let imm5 = imm5(bits);

            Add::AddImm(AddImmediate { dr, sr1, imm5 })
        } else {
            let sr2 = register_2_0(bits);

            Add::AddReg(AddRegister { dr, sr1, sr2 })
        }
    }

    /// Adds, with wraparound, and sets the condition register by the sum.
    pub fn execute(&self, registers: &mut Registers)
        ensures
            *final(registers) == self.spec_execute(*old(registers)),
            final(registers).cond == CondFlag::of(self.result(*old(registers))).spec_bits(),
            final(registers).well_formed(),
            self.dr() != Register::COND ==> final(registers).spec_get(self.dr()) == self.result(
                *old(registers),
            ),
    {
        match self {
            Add::AddImm(args) => {
                let sum = registers.get(args.sr1).wrapping_add(args.imm5);
                registers.load(args.dr, sum);
            },
            Add::AddReg(args) => {
                let sum = registers.get(args.sr1).wrapping_add(registers.get(args.sr2));
                registers.load(args.dr, sum);
            },
        }
    }
}

} // verus!
