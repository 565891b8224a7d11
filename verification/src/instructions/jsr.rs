use vstd::prelude::*;
use crate::fields::{bit_set, bits_8_6, flag, offset11, register_8_6, spec_offset11};
use crate::registers::{wrapping_sum, Register, Registers};

verus! {

/// JSR: `pc = pc + pc_offset11`.
#[derive(Clone, Copy, PartialEq, Eq, Debug, Structural)]
pub struct JsrOffset {
    pub pc_offset11: u16,
}

/// JSRR: `pc = base_r`.
#[derive(Clone, Copy, PartialEq, Eq, Debug, Structural)]
pub struct JsrRegister {
    pub base_r: Register,
}

/// The two forms of the subroutine call.
#[derive(Clone, Copy, PartialEq, Eq, Debug, Structural)]
pub enum Jsr {
    JsrOffset(JsrOffset),
    JsrRegister(JsrRegister),
}

impl Jsr {
    /// The call that a word encodes: with bit 11 set, bits 10 to 0 are a
    /// sign-extended offset; otherwise bits 8 to 6 name the base register.
    pub open spec fn spec_from_bits(bits: u16) -> Jsr {
        if bit_set(bits, 11) {
            Jsr::JsrOffset(JsrOffset { pc_offset11: spec_offset11(bits) })
        } else {
            Jsr::JsrRegister(JsrRegister { base_r: Register::general(bits_8_6(bits)) })
        }
    }

    /// The address of the subroutine: the program counter plus the offset,
    /// modulo 2^16, or what the base register holds before the call.
    pub open spec fn target(self, registers: Registers) -> u16 {
        match self {
            Jsr::JsrOffset(args) => wrapping_sum(registers.pc, args.pc_offset11),
            Jsr::JsrRegister(args) => registers.spec_get(args.base_r),
        }
    }

    /// The registers after the instruction: the program counter holds the
    /// address of the subroutine and R7 the program counter of before. The
    /// base register is read before R7 is written, so a call through R7 goes
    /// to the address that R7 held.
    pub open spec fn spec_execute(self, registers: Registers) -> Registers {
        registers.spec_set(Register::PC, self.target(registers)).spec_set(
            Register::R7,
            registers.pc,
        )
    }

    /// Decodes a JSR or JSRR word.
    pub fn from_bits(bits: u16) -> (instruction: Self)
        ensures
            instruction == Jsr::spec_from_bits(bits),
    {
        let r = !flag(bits, 11);

        if r {
            let base_r = register_8_6(bits);

            Jsr::JsrRegister(JsrRegister { base_r })
        } else {
            let pc_offset11 = offset11(bits);

            Jsr::JsrOffset(JsrOffset { pc_offset11 })
        }
    }

    /// Calls the subroutine: the program counter, which is already past the
    /// call, is saved in R7.
    pub fn execute(&self, registers: &mut Registers)
        ensures
            *final(registers) == self.spec_execute(*old(registers)),
            final(registers).r7 == old(registers).pc,
            final(registers).pc == self.target(*old(registers)),
    {
        let temp = registers.get(Register::PC);

        match self {
            Jsr::JsrOffset(args) => {
                let target = temp.wrapping_add(args.pc_offset11);
                registers.set(Register::PC, target);
            },
            Jsr::JsrRegister(args) => {
                let target = registers.get(args.base_r);
                registers.set(Register::PC, target);
            },
        }

        registers.set(Register::R7, temp);
    }
}

} // verus!
