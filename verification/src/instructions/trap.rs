use vstd::prelude::*;
use crate::effect::{Effect, EffectView, Next, Outcome};
use crate::error::DecodeError;
use crate::memory::{Memory, MemoryState};
use crate::registers::{wrapping_sum, Register, Registers, KBSR};
use crate::traps::TrapCode;

verus! {

/// The low eight bits of a word.
pub open spec fn low_byte(word: u16) -> u8 {
    (word % 0x100) as u8
}

/// The high eight bits of a word.
pub open spec fn high_byte(word: u16) -> u8 {
    (word / 0x100) as u8
}

/// The text that asks for a key: "Enter a  character : " in ASCII.
pub open spec fn prompt() -> Seq<u8> {
    seq![
        69u8, 110u8, 116u8, 101u8, 114u8, 32u8, 97u8, 32u8, 32u8, 99u8, 104u8, 97u8, 114u8, 97u8,
        99u8, 116u8, 101u8, 114u8, 32u8, 58u8, 32u8,
    ]
}

/// How many cells lie between `index` and the next read of the keyboard
/// status address, going upward and round the end of memory.
pub open spec fn cells_before_poll(index: u16) -> int {
    if index <= KBSR {
        KBSR - index
    } else {
        KBSR + 0x10000 - index
    }
}

/// The memory after a string was read from it, and the bytes of the string.
pub struct Printed {
    pub memory: MemoryState,
    pub output: Seq<u8>,
}

/// The string of one character per word that starts at `index`: the low byte
/// of each word up to the first word that reads as zero. The words are read
/// as every other word is, so a string that runs over the keyboard status
/// address polls the keyboard there. The addresses wrap round the end of
/// memory.
pub open spec fn string_at(memory: MemoryState, index: u16) -> Printed
    decreases memory.keyboard.pending.len(), cells_before_poll(index),
    when memory.well_formed()
{
    let word = memory.read(index);
    let after = memory.after_read(index);
    if word == 0 {
        Printed { memory: after, output: Seq::empty() }
    } else {
        let rest = string_at(after, wrapping_sum(index, 1));
        Printed { memory: rest.memory, output: seq![low_byte(word)] + rest.output }
    }
}

/// The string of two characters per word that starts at `index`: of each
/// word the low byte, then the high byte, up to the first word that reads as
/// zero or, within a word, up to a high byte that is zero.
pub open spec fn packed_string_at(memory: MemoryState, index: u16) -> Printed
    decreases memory.keyboard.pending.len(), cells_before_poll(index),
    when memory.well_formed()
{
    let word = memory.read(index);
    let after = memory.after_read(index);
    if word == 0 {
        Printed { memory: after, output: Seq::empty() }
    } else if high_byte(word) == 0 {
        Printed { memory: after, output: seq![low_byte(word)] }
    } else {
        let rest = packed_string_at(after, wrapping_sum(index, 1));
        Printed {
            memory: rest.memory,
            output: seq![low_byte(word), high_byte(word)] + rest.output,
        }
    }
}

/// A system call.
#[derive(Clone, Copy, PartialEq, Eq, Debug, Structural)]
pub struct Trap {
    pub trap_code: TrapCode,
}

/// The low eight bits of a word.
fn low_byte_of(word: u16) -> (byte: u8)
    ensures
        byte == low_byte(word),
{
    assert(word & 0xFF == word % 0x100) by (bit_vector);
    (word & 0xFF) as u8
}

/// The high eight bits of a word.
fn high_byte_of(word: u16) -> (byte: u8)
    ensures
        byte == high_byte(word),
{
    assert(word >> 8 == word / 0x100) by (bit_vector);
    (word >> 8) as u8
}

/// Reads the string of one character per word at `index`.
fn read_string(memory: &mut Memory, index: u16) -> (out: Vec<u8>)
    ensures
        final(memory)@ == string_at(old(memory)@, index).memory,
        out@ == string_at(old(memory)@, index).output,
{
    let mut out: Vec<u8> = Vec::new();
    let mut index: u16 = index;
    let ghost whole = string_at(memory@, index);
    assert(Seq::<u8>::empty() + whole.output =~= whole.output);
    loop
        invariant_except_break
            memory@.well_formed(),
            whole.memory == string_at(memory@, index).memory,
            whole.output == out@ + string_at(memory@, index).output,
        ensures
            memory@ == whole.memory,
            out@ == whole.output,
        decreases memory@.keyboard.pending.len(), cells_before_poll(index),
    {
        let ghost written = out@;
        let word = memory.read(index);
        if word == 0 {
            assert(written + Seq::<u8>::empty() =~= written);
            break;
        }
        let low = low_byte_of(word);
        out.push(low);
        index = index.wrapping_add(1);
        assert(out@ + string_at(memory@, index).output =~= written + (seq![low] + string_at(
            memory@,
            index,
        ).output));
    }
    out
}

/// Reads the string of two characters per word at `index`.
fn read_packed_string(memory: &mut Memory, index: u16) -> (out: Vec<u8>)
    ensures
        final(memory)@ == packed_string_at(old(memory)@, index).memory,
        out@ == packed_string_at(old(memory)@, index).output,
{
    let mut out: Vec<u8> = Vec::new();
    let mut index: u16 = index;
    let ghost whole = packed_string_at(memory@, index);
    assert(Seq::<u8>::empty() + whole.output =~= whole.output);
    loop
        invariant_except_break
            memory@.well_formed(),
            whole.memory == packed_string_at(memory@, index).memory,
            whole.output == out@ + packed_string_at(memory@, index).output,
        ensures
            memory@ == whole.memory,
            out@ == whole.output,
        decreases memory@.keyboard.pending.len(), cells_before_poll(index),
    {
        let ghost written = out@;
        let word = memory.read(index);
        if word == 0 {
            assert(written + Seq::<u8>::empty() =~= written);
            break;
        }
        let low = low_byte_of(word);
        let high = high_byte_of(word);
        out.push(low);
        if high == 0 {
            assert(out@ =~= written + seq![low]);
            break;
        }
        out.push(high);
        index = index.wrapping_add(1);
        assert(out@ + packed_string_at(memory@, index).output =~= written + (seq![low, high]
            + packed_string_at(memory@, index).output));
    }
    out
}

/// The bytes of the text that asks for a key.
fn prompt_bytes() -> (out: Vec<u8>)
    ensures
        out@ == prompt(),
{
    let out = vec![
        69u8, 110u8, 116u8, 101u8, 114u8, 32u8, 97u8, 32u8, 32u8, 99u8, 104u8, 97u8, 114u8, 97u8,
        99u8, 116u8, 101u8, 114u8, 32u8, 58u8, 32u8,
    ];
    assert(out@ =~= prompt());
    out
}

impl Trap {
    /// The system call that a TRAP word asks for, if its vector is known.
    pub open spec fn spec_from_bits(bits: u16) -> Result<Trap, DecodeError> {
        match TrapCode::of(bits) {
            Some(trap_code) => Ok(Trap { trap_code }),
            None => Err(DecodeError::InvalidTrapCode),
        }
    }

    /// Decodes a TRAP word: bits 7 to 0 hold the trap vector, as an unsigned
    /// number. A vector that selects no system call is an error.
    pub fn from_bits(bits: u16) -> (trap: Result<Trap, DecodeError>)
        ensures
            trap == Trap::spec_from_bits(bits),
    {
        match TrapCode::try_from(bits) {
            Ok(trap_code) => Ok(Trap { trap_code }),
            Err(error) => Err(error),
        }
    }

    /// What the system call does until it needs the host: it saves the
    /// program counter in R7, and then
    /// - GETC asks for a key without echo;
    /// - OUT writes the low byte of R0;
    /// - PUTS writes the string of one character per word at R0 and flushes;
    /// - IN writes the prompt, flushes, and asks for a key with echo;
    /// - PUTSP writes the string of two characters per word at R0 and flushes;
    /// - HALT flushes and stops the machine.
    pub open spec fn spec_execute(self, registers: Registers, memory: MemoryState) -> Outcome {
        let linked = registers.spec_set(Register::R7, registers.pc);
        match self.trap_code {
            TrapCode::GETC => Outcome {
                registers: linked,
                memory,
                effect: EffectView {
                    output: Seq::empty(),
                    flush: false,
                    next: Next::AwaitKey { echo: false },
                },
            },
            TrapCode::OUT => Outcome {
                registers: linked,
                memory,
                effect: EffectView {
                    output: seq![low_byte(linked.r0)],
                    flush: false,
                    next: Next::Continue,
                },
            },
            TrapCode::PUTS => Outcome {
                registers: linked,
                memory: string_at(memory, linked.r0).memory,
                effect: EffectView {
                    output: string_at(memory, linked.r0).output,
                    flush: true,
                    next: Next::Continue,
                },
            },
            TrapCode::IN => Outcome {
                registers: linked,
                memory,
                effect: EffectView {
                    output: prompt(),
                    flush: true,
                    next: Next::AwaitKey { echo: true },
                },
            },
            TrapCode::PUTSP => Outcome {
                registers: linked,
                memory: packed_string_at(memory, linked.r0).memory,
                effect: EffectView {
                    output: packed_string_at(memory, linked.r0).output,
                    flush: true,
                    next: Next::Continue,
                },
            },
            TrapCode::HALT => Outcome {
                registers: linked,
                memory,
                effect: EffectView { output: Seq::empty(), flush: true, next: Next::Halt },
            },
        }
    }

    /// The effect of the arrival of the key that GETC or IN waited for: with
    /// `echo` the key is written and the output flushed.
    pub open spec fn spec_receive(key: u8, echo: bool) -> EffectView {
        EffectView {
            output: if echo {
                seq![key]
            } else {
                Seq::empty()
            },
            flush: echo,
            next: Next::Continue,
        }
    }

    /// Runs the system call up to the point at which it needs the host, and
    /// says in the effect what the host is to write and whether a key is
    /// awaited.
    pub fn execute(&self, registers: &mut Registers, memory: &mut Memory) -> (effect: Effect)
        ensures
            *final(registers) == self.spec_execute(*old(registers), old(memory)@).registers,
            final(memory)@ == self.spec_execute(*old(registers), old(memory)@).memory,
            effect@ == self.spec_execute(*old(registers), old(memory)@).effect,
    {
        let pc = registers.get(Register::PC);
        registers.set(Register::R7, pc);
        match self.trap_code {
            TrapCode::GETC => Effect {
                output: Vec::new(),
                flush: false,
                next: Next::AwaitKey { echo: false },
            },
            TrapCode::OUT => {
                let low = low_byte_of(registers.get(Register::R0));
                let output = vec![low];
                assert(output@ =~= seq![low]);
                Effect { output, flush: false, next: Next::Continue }
            },
            TrapCode::PUTS => {
                let output = read_string(memory, registers.get(Register::R0));
                Effect { output, flush: true, next: Next::Continue }
            },
            TrapCode::IN => Effect {
                output: prompt_bytes(),
                flush: true,
                next: Next::AwaitKey { echo: true },
            },
            TrapCode::PUTSP => {
                let output = read_packed_string(memory, registers.get(Register::R0));
                Effect { output, flush: true, next: Next::Continue }
            },
            TrapCode::HALT => Effect { output: Vec::new(), flush: true, next: Next::Halt },
        }
    }

    /// Completes a GETC or IN with the key it waited for: the key goes to R0
    /// and, with `echo`, to the output.
    pub fn receive(key: u8, echo: bool, registers: &mut Registers) -> (effect: Effect)
        ensures
            *final(registers) == old(registers).spec_set(Register::R0, key as u16),
            effect@ == Trap::spec_receive(key, echo),
    {
        registers.set(Register::R0, key as u16);
        let mut output: Vec<u8> = Vec::new();
        if echo {
            output.push(key);
            assert(output@ =~= seq![key]);
        }
        Effect { output, flush: echo, next: Next::Continue }
    }
}

} // verus!
