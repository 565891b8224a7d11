use vstd::prelude::*;
use crate::fields::{bit_set, bits_11_9, bits_2_0, bits_8_6, flag, imm5, register_11_9, register_2_0, register_8_6, spec_imm5};
use crate::registers::{CondFlag, Register, Registers};

verus! {

/// AND with an immediate: `dr = sr1 & imm5`.
#[derive(Clone, Copy, PartialEq, Eq, Debug, Structural)]
pub struct AndImmediate {
    pub dr: Register,
    pub sr1: Register,
    pub imm5: u16,
}

/// AND with two registers: `dr = sr1 & sr2`.
#[derive(Clone, Copy, PartialEq, Eq, Debug, Structural)]
pub struct AndRegister {
    pub dr: Register,
    pub sr1: Register,
    pub sr2: Register,
}

/// The two forms of AND: `AddImm` with an immediate, `AddReg` with a second
/// source register.
#[derive(Clone, Copy, PartialEq, Eq, Debug, Structural)]
pub enum And {
    AddImm(AndImmediate),
    AddReg(AndRegister),
}

impl And {
    /// The AND that a word encodes: bits 11 to 9 name the destination, bits 8
    /// to 6 the first source; with bit 5 set, bits 4 to 0 are a sign-extended
    /// immediate, otherwise bits 2 to 0 name the second source.
    pub open spec fn spec_from_bits(bits: u16) -> And {
        let dr = Register::general(bits_11_9(bits));
        let sr1 = Register::general(bits_8_6(bits));
        if bit_set(bits, 5) {
            And::AddImm(AndImmediate { dr, sr1, imm5: spec_imm5(bits) })
        } else {
            And::AddReg(AndRegister { dr, sr1, sr2: Register::general(bits_2_0(bits)) })
        }
    }

    /// The register that the instruction writes.
    pub open spec fn dr(self) -> Register {
        match self {
            And::AddImm(args) => args.dr,
            And::AddReg(args) => args.dr,
        }
    }

    /// The word that the instruction writes: the bits that the first source
    /// shares with the immediate or the second source.
    pub open spec fn result(self, registers: Registers) -> u16 {
        match self {
            And::AddImm(args) => registers.spec_get(args.sr1) & args.imm5,
            And::AddReg(args) => registers.spec_get(args.sr1) & registers.spec_get(args.sr2),
        }
    }

    /// The registers after the instruction: the destination holds the result
    /// and the condition register describes it.
    pub open spec fn spec_execute(self, registers: Registers) -> Registers {
        registers.spec_load(self.dr(), self.result(registers))
    }

    /// Decodes an AND word.
    pub fn from_bits(bits: u16) -> (instruction: Self)
        ensures
            instruction == And::spec_from_bits(bits),
    {
        let dr = register_11_9(bits);
        let sr1 = register_8_6(bits);
        let imm = flag(bits, 5);

        if imm {
            let imm5 = imm5(bits);

            And::AddImm(AndImmediate { dr, sr1, imm5 })
        } else {
            let sr2 = register_2_0(bits);

            And::AddReg(AndRegister { dr, sr1, sr2 })
        }
    }

    /// Combines bit by bit and sets the condition register by the result.
    pub fn execute(&self, registers: &mut Registers)
        ensures
            *final(registers) == self.spec_execute(*old(registers)),
            final(registers).cond == CondFlag::of(self.result(*old(registers))).spec_bits(),
            final(registers).well_formed(),
            self.dr() != Register::COND ==> final(registers).spec_get(self.dr()) == self.result(
                *old(registers),
            ),
    {
        match self {
            And::AddImm(args) => {
                let both = registers.get(args.sr1) & args.imm5;
                registers.load(args.dr, both);
            },
            And::AddReg(args) => {
                let both = registers.get(args.sr1) & registers.get(args.sr2);
                registers.load(args.dr, both);
            },
        }
    }
}

} // verus!
