use vstd::prelude::*;

pub mod add;
pub mod and;
pub mod br;
pub mod jmp;
pub mod jsr;
pub mod ld;
pub mod ldi;
pub mod ldr;
pub mod lea;
pub mod not;
pub mod st;
pub mod sti;
pub mod str;
pub mod trap;

pub use add::Add;
pub use and::And;
pub use br::Br;
pub use jmp::Jmp;
pub use jsr::Jsr;
pub use ld::Ld;
pub use ldi::Ldi;
pub use ldr::Ldr;
pub use lea::Lea;
pub use not::Not;
pub use st::St;
pub use sti::Sti;
pub use str::Str;
pub use trap::Trap;

use add::AddImmediate;
use and::AndImmediate;
use crate::effect::{Effect, EffectView, Outcome};
use crate::error::DecodeError;
use crate::fields::{bit_set, bits_11_9, bits_8_6};
use crate::memory::{Memory, MemoryState};
use crate::opcodes::Opcode;
use crate::registers::{lemma_wrapping_sum_of_negative, wrapping_sum, CondFlag, Register, Registers};
use crate::utils::{lemma_sign_extend_value, sign_extend_spec};
use crate::traps::TrapCode;

verus! {

/// The word of an instruction with two registers and an immediate: the
/// number of the opcode in bits 15 to 12, the numbers of the two registers in
/// bits 11 to 9 and 8 to 6, bit 5 set, and the immediate in bits 4 to 0.
pub open spec fn immediate_word(opcode: u16, dr: u16, sr1: u16, imm5: u16) -> u16 {
    (opcode * 0x1000 + dr * 0x200 + sr1 * 0x40 + 0x20 + imm5) as u16
}

/// Each field of such a word reads as the number it was made of.
pub proof fn lemma_immediate_word_fields(opcode: u16, dr: u16, sr1: u16, imm5: u16)
    requires
        opcode < 16,
        dr < 8,
        sr1 < 8,
        imm5 < 32,
    ensures
        immediate_word(opcode, dr, sr1, imm5) / 0x1000 == opcode,
        bits_11_9(immediate_word(opcode, dr, sr1, imm5)) == dr,
        bits_8_6(immediate_word(opcode, dr, sr1, imm5)) == sr1,
        bit_set(immediate_word(opcode, dr, sr1, imm5), 5),
        immediate_word(opcode, dr, sr1, imm5) % 0x20 == imm5,
{
    let word = immediate_word(opcode, dr, sr1, imm5);
    assert(word / 0x1000 == opcode && (word / 0x200) % 8 == dr && (word / 0x40) % 8 == sr1 && (word
        >> 5) & 1 == 1 && word % 0x20 == imm5) by (bit_vector)
        requires
            opcode < 16,
            dr < 8,
            sr1 < 8,
            imm5 < 32,
            word == (opcode * 0x1000 + dr * 0x200 + sr1 * 0x40 + 0x20 + imm5) as u16,
    ;
}

/// One decoded instruction.
#[derive(Clone, Copy, PartialEq, Eq, Debug, Structural)]
pub enum Instruction {
    Add(Add),
    Br(Br),
    Jmp(Jmp),
    Jsr(Jsr),
    Ld(Ld),
    Ldi(Ldi),
    Ldr(Ldr),
    Lea(Lea),
    Not(Not),
    St(St),
    Sti(Sti),
    Str(Str),
    Trap(Trap),
    And(And),
}

/// What a word asks of the run loop: to execute an instruction and go on, or
/// to stop.
#[derive(PartialEq, Eq, Debug)]
pub enum InstructionType<T> {
    Continue(T),
    Halt,
}

impl Instruction {
    /// What a word decodes to. The top four bits select the instruction,
    /// whose own layout gives the rest. A TRAP word whose vector is HALT is
    /// the signal to stop, one whose vector is unknown is an error, and so
    /// are the two opcodes without a meaning, RTI and RES.
    pub open spec fn spec_try_from_bits(bits: u16) -> Result<
        InstructionType<Instruction>,
        DecodeError,
    > {
        match Opcode::of(bits) {
            Opcode::ADD => Ok(InstructionType::Continue(Instruction::Add(Add::spec_from_bits(bits)))),
            Opcode::BR => Ok(InstructionType::Continue(Instruction::Br(Br::spec_from_bits(bits)))),
            Opcode::JMP => Ok(InstructionType::Continue(Instruction::Jmp(Jmp::spec_from_bits(bits)))),
            Opcode::JSR => Ok(InstructionType::Continue(Instruction::Jsr(Jsr::spec_from_bits(bits)))),
            Opcode::LD => Ok(InstructionType::Continue(Instruction::Ld(Ld::spec_from_bits(bits)))),
            Opcode::LDI => Ok(InstructionType::Continue(Instruction::Ldi(Ldi::spec_from_bits(bits)))),
            Opcode::LDR => Ok(InstructionType::Continue(Instruction::Ldr(Ldr::spec_from_bits(bits)))),
            Opcode::LEA => Ok(InstructionType::Continue(Instruction::Lea(Lea::spec_from_bits(bits)))),
            Opcode::NOT => Ok(InstructionType::Continue(Instruction::Not(Not::spec_from_bits(bits)))),
            Opcode::ST => Ok(InstructionType::Continue(Instruction::St(St::spec_from_bits(bits)))),
            Opcode::STI => Ok(InstructionType::Continue(Instruction::Sti(Sti::spec_from_bits(bits)))),
            Opcode::STR => Ok(InstructionType::Continue(Instruction::Str(Str::spec_from_bits(bits)))),
            Opcode::TRAP => match Trap::spec_from_bits(bits) {
                Ok(trap) => if trap.trap_code == TrapCode::HALT {
                    Ok(InstructionType::Halt)
                } else {
                    Ok(InstructionType::Continue(Instruction::Trap(trap)))
                },
                Err(error) => Err(error),
            },
            Opcode::AND => Ok(InstructionType::Continue(Instruction::And(And::spec_from_bits(bits)))),
            Opcode::RTI => Err(DecodeError::ReservedOpcode),
            Opcode::RES => Err(DecodeError::ReservedOpcode),
        }
    }

    /// The machine after the instruction, and what the host is to do.
    pub open spec fn spec_execute(self, registers: Registers, memory: MemoryState) -> Outcome {
        match self {
            Instruction::Add(x) => Outcome {
                registers: x.spec_execute(registers),
                memory,
                effect: EffectView::quiet(),
            },
            Instruction::Br(x) => Outcome {
                registers: x.spec_execute(registers),
                memory,
                effect: EffectView::quiet(),
            },
            Instruction::Jmp(x) => Outcome {
                registers: x.spec_execute(registers),
                memory,
                effect: EffectView::quiet(),
            },
            Instruction::Jsr(x) => Outcome {
                registers: x.spec_execute(registers),
                memory,
                effect: EffectView::quiet(),
            },
            Instruction::Ld(x) => x.spec_execute(registers, memory),
            Instruction::Ldi(x) => x.spec_execute(registers, memory),
            Instruction::Ldr(x) => x.spec_execute(registers, memory),
            Instruction::Lea(x) => Outcome {
                registers: x.spec_execute(registers),
                memory,
                effect: EffectView::quiet(),
            },
            Instruction::Not(x) => Outcome {
                registers: x.spec_execute(registers),
                memory,
                effect: EffectView::quiet(),
            },
            Instruction::St(x) => x.spec_execute(registers, memory),
            Instruction::Sti(x) => x.spec_execute(registers, memory),
            Instruction::Str(x) => x.spec_execute(registers, memory),
            Instruction::Trap(x) => x.spec_execute(registers, memory),
            Instruction::And(x) => Outcome {
                registers: x.spec_execute(registers),
                memory,
                effect: EffectView::quiet(),
            },
        }
    }

    /// Decodes a word into an instruction to execute or the signal to halt.
    pub fn try_from_bits(bits: u16) -> (decoded: Result<InstructionType<Self>, DecodeError>)
        ensures
            decoded == Instruction::spec_try_from_bits(bits),
    {
        let opcode = Opcode::from(bits);

        let instruction = match opcode {
            Opcode::ADD => InstructionType::Continue(Instruction::Add(Add::from_bits(bits))),
            Opcode::BR => InstructionType::Continue(Instruction::Br(Br::from_bits(bits))),
            Opcode::JMP => InstructionType::Continue(Instruction::Jmp(Jmp::from_bits(bits))),
            Opcode::JSR => InstructionType::Continue(Instruction::Jsr(Jsr::from_bits(bits))),
            Opcode::LD => InstructionType::Continue(Instruction::Ld(Ld::from_bits(bits))),
            Opcode::LDI => InstructionType::Continue(Instruction::Ldi(Ldi::from_bits(bits))),
            Opcode::LDR => InstructionType::Continue(Instruction::Ldr(Ldr::from_bits(bits))),
            Opcode::LEA => InstructionType::Continue(Instruction::Lea(Lea::from_bits(bits))),
            Opcode::NOT => InstructionType::Continue(Instruction::Not(Not::from_bits(bits))),
            Opcode::ST => InstructionType::Continue(Instruction::St(St::from_bits(bits))),
            Opcode::STI => InstructionType::Continue(Instruction::Sti(Sti::from_bits(bits))),
            Opcode::STR => InstructionType::Continue(Instruction::Str(Str::from_bits(bits))),
            Opcode::TRAP => match Trap::from_bits(bits) {
                Ok(trap) => match trap.trap_code {
                    TrapCode::HALT => InstructionType::Halt,
                    _ => InstructionType::Continue(Instruction::Trap(trap)),
                },
                Err(error) => {
                    return Err(error);
                },
            },
            Opcode::AND => InstructionType::Continue(Instruction::And(And::from_bits(bits))),
            Opcode::RTI => {
                return Err(DecodeError::ReservedOpcode);
            },
            Opcode::RES => {
                return Err(DecodeError::ReservedOpcode);
            },
        };

        Ok(instruction)
    }

    /// Executes the instruction on the registers and the memory, and returns
    /// what is left for the host to do. Only a system call leaves anything.
    pub fn execute(&self, registers: &mut Registers, memory: &mut Memory) -> (effect: Effect)
        ensures
            *final(registers) == self.spec_execute(*old(registers), old(memory)@).registers,
            final(memory)@ == self.spec_execute(*old(registers), old(memory)@).memory,
            effect@ == self.spec_execute(*old(registers), old(memory)@).effect,
    {
        match self {
            Instruction::Add(x) => x.execute(registers),
            Instruction::Br(x) => x.execute(registers),
            Instruction::Jmp(x) => x.execute(registers),
            Instruction::Jsr(x) => x.execute(registers),
            Instruction::Ld(x) => x.execute(registers, memory),
            Instruction::Ldi(x) => x.execute(registers, memory),
            Instruction::Ldr(x) => x.execute(registers, memory),
            Instruction::Lea(x) => x.execute(registers),
            Instruction::Not(x) => x.execute(registers),
            Instruction::St(x) => x.execute(registers, memory),
            Instruction::Sti(x) => x.execute(registers, memory),
            Instruction::Str(x) => x.execute(registers, memory),
            Instruction::Trap(x) => {
                return x.execute(registers, memory);
            },
            Instruction::And(x) => x.execute(registers),
        }
        Effect::quiet()
    }

    /// The register whose new content the condition register describes after
    /// the instruction, for the instructions that set the condition register:
    /// ADD, AND, NOT, LD, LDI, LDR and LEA.
    pub open spec fn destination(self) -> Option<Register> {
        match self {
            Instruction::Add(x) => Some(x.dr()),
            Instruction::And(x) => Some(x.dr()),
            Instruction::Not(x) => Some(x.dr),
            Instruction::Ld(x) => Some(x.dr),
            Instruction::Ldi(x) => Some(x.dr),
            Instruction::Ldr(x) => Some(x.dr),
            Instruction::Lea(x) => Some(x.dr),
            _ => None,
        }
    }

    /// After an instruction that sets the condition register, the condition
    /// register holds exactly one of the three flag values, and it is the
    /// one that describes the register written: ZRO where that register
    /// holds zero, NEG where its high bit is set, POS otherwise. (An
    /// instruction built by hand to write the condition register itself
    /// leaves the flag of the value it wrote.)
    pub proof fn lemma_flags_describe_destination(self, registers: Registers, memory: MemoryState)
        requires
            self.destination() is Some,
            self.destination() != Some(Register::COND),
        ensures
            ({
                let after = self.spec_execute(registers, memory).registers;
                let value = after.spec_get(self.destination().unwrap());
                &&& after.well_formed()
                &&& CondFlag::from_bits(after.cond) == Some(CondFlag::of(value))
                &&& value == 0 <==> after.cond == CondFlag::ZRO.spec_bits()
                &&& value >= 0x8000 <==> after.cond == CondFlag::NEG.spec_bits()
                &&& 0 < value < 0x8000 <==> after.cond == CondFlag::POS.spec_bits()
            }),
    {
    }

    /// Every word that decodes to an instruction which sets the condition
    /// register names one of R0 to R7 as its destination.
    pub proof fn lemma_decoded_destination_is_general(bits: u16)
        ensures
            match Instruction::spec_try_from_bits(bits) {
                Ok(InstructionType::Continue(instruction)) => match instruction.destination() {
                    Some(register) => register.is_general(),
                    None => true,
                },
                _ => true,
            },
    {
    }

    /// No instruction leaves the condition register without a flag: where it
    /// holds one of the three flag values before, it holds one after.
    pub proof fn lemma_execute_keeps_condition(self, registers: Registers, memory: MemoryState)
        requires
            registers.well_formed(),
        ensures
            self.spec_execute(registers, memory).registers.well_formed(),
    {
    }

    /// The word that encodes ADD with an immediate: opcode 1, the numbers of
    /// the two registers, bit 5 set, and the five bits of the immediate.
    pub open spec fn add_immediate_word(dr: u16, sr1: u16, imm5: u16) -> u16 {
        immediate_word(1, dr, sr1, imm5)
    }

    /// The word that encodes AND with an immediate: opcode 5, the numbers of
    /// the two registers, bit 5 set, and the five bits of the immediate.
    pub open spec fn and_immediate_word(dr: u16, sr1: u16, imm5: u16) -> u16 {
        immediate_word(5, dr, sr1, imm5)
    }

    /// An ADD word with an immediate decodes to the instruction it was made
    /// of.
    pub proof fn lemma_add_immediate_decodes(dr: u16, sr1: u16, imm5: u16)
        requires
            dr < 8,
            sr1 < 8,
            imm5 < 32,
        ensures
            Instruction::spec_try_from_bits(Instruction::add_immediate_word(dr, sr1, imm5)) == Ok::<
                InstructionType<Instruction>,
                DecodeError,
            >(
                InstructionType::Continue(
                    Instruction::Add(
                        Add::AddImm(
                            AddImmediate {
                                dr: Register::general(dr),
                                sr1: Register::general(sr1),
                                imm5: sign_extend_spec(imm5, 5),
                            },
                        ),
                    ),
                ),
            ),
    {
        lemma_immediate_word_fields(1, dr, sr1, imm5);
    }

    /// An AND word with an immediate decodes to the instruction it was made
    /// of.
    pub proof fn lemma_and_immediate_decodes(dr: u16, sr1: u16, imm5: u16)
        requires
            dr < 8,
            sr1 < 8,
            imm5 < 32,
        ensures
            Instruction::spec_try_from_bits(Instruction::and_immediate_word(dr, sr1, imm5)) == Ok::<
                InstructionType<Instruction>,
                DecodeError,
            >(
                InstructionType::Continue(
                    Instruction::And(
                        And::AddImm(
                            AndImmediate {
                                dr: Register::general(dr),
                                sr1: Register::general(sr1),
                                imm5: sign_extend_spec(imm5, 5),
                            },
                        ),
                    ),
                ),
            ),
    {
        lemma_immediate_word_fields(5, dr, sr1, imm5);
    }

    /// Encoding, decoding and executing ADD with an immediate: the word
    /// decodes to an instruction after which the destination holds the
    /// source plus the immediate, read as a five-bit two's-complement number,
    /// modulo 2^16, with the condition register describing that sum.
    pub proof fn lemma_add_immediate_round_trip(
        dr: u16,
        sr1: u16,
        imm5: u16,
        registers: Registers,
        memory: MemoryState,
    )
        requires
            dr < 8,
            sr1 < 8,
            imm5 < 32,
        ensures
            Instruction::spec_try_from_bits(Instruction::add_immediate_word(dr, sr1, imm5))
                matches Ok(InstructionType::Continue(instruction)) && ({
                let after = instruction.spec_execute(registers, memory).registers;
                let source = registers.spec_get(Register::general(sr1));
                let sum = after.spec_get(Register::general(dr));
                &&& imm5 < 16 ==> sum == (source + imm5) % 0x10000
                &&& imm5 >= 16 ==> sum == (source + imm5 - 32) % 0x10000
                &&& after.cond == CondFlag::of(sum).spec_bits()
            }),
    {
        Instruction::lemma_add_immediate_decodes(dr, sr1, imm5);
        let source = registers.spec_get(Register::general(sr1));
        let extended = sign_extend_spec(imm5, 5);
        let sum = wrapping_sum(source, extended);
        assert(1u32 << 4u32 == 16 && 1u32 << 5u32 == 32) by (bit_vector);
        lemma_sign_extend_value(imm5, 5);
        lemma_wrapping_sum_of_negative(source, imm5, 32);
        assert(Register::general(dr) != Register::COND);
        registers.lemma_load(Register::general(dr), sum);
    }

    /// Encoding, decoding and executing AND with an immediate: the word
    /// decodes to an instruction after which the destination holds the bits
    /// that the source shares with the sign-extended immediate, with the
    /// condition register describing them.
    pub proof fn lemma_and_immediate_round_trip(
        dr: u16,
        sr1: u16,
        imm5: u16,
        registers: Registers,
        memory: MemoryState,
    )
        requires
            dr < 8,
            sr1 < 8,
            imm5 < 32,
        ensures
            Instruction::spec_try_from_bits(Instruction::and_immediate_word(dr, sr1, imm5))
                matches Ok(InstructionType::Continue(instruction)) && ({
                let after = instruction.spec_execute(registers, memory).registers;
                let source = registers.spec_get(Register::general(sr1));
                let both = after.spec_get(Register::general(dr));
                &&& both == source & sign_extend_spec(imm5, 5)
                &&& after.cond == CondFlag::of(both).spec_bits()
            }),
    {
        Instruction::lemma_and_immediate_decodes(dr, sr1, imm5);
        let source = registers.spec_get(Register::general(sr1));
        assert(Register::general(dr) != Register::COND);
        registers.lemma_load(Register::general(dr), source & sign_extend_spec(imm5, 5));
    }
}

} // verus!
