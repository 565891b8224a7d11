use vstd::prelude::*;
use crate::memory::MemoryState;
use crate::registers::Registers;

verus! {

/// What the machine does after an instruction.
#[derive(Clone, Copy, PartialEq, Eq, Debug, Structural)]
pub enum Next {
    /// It goes on with the instruction at the program counter.
    Continue,
    /// It waits for a key, which goes to R0 and, with `echo`, to the output.
    AwaitKey { echo: bool },
    /// It stops.
    Halt,
}

/// What the host is to do after an instruction, as plain values.
pub struct EffectView {
    pub output: Seq<u8>,
    pub flush: bool,
    pub next: Next,
}

impl EffectView {
    /// Nothing to write, and the machine goes on.
    pub open spec fn quiet() -> EffectView {
        EffectView { output: Seq::empty(), flush: false, next: Next::Continue }
    }
}

/// What the host is to do after an instruction: write `output` to the output
/// stream, flush the stream where `flush` is set, and then go by `next`.
#[derive(Debug)]
pub struct Effect {
    pub output: Vec<u8>,
    pub flush: bool,
    pub next: Next,
}

impl View for Effect {
    type V = EffectView;

    open spec fn view(&self) -> EffectView {
        EffectView { output: self.output@, flush: self.flush, next: self.next }
    }
}

impl Effect {
    /// The effect of an instruction that only changes the machine.
    pub fn quiet() -> (effect: Effect)
        ensures
            effect@ == EffectView::quiet(),
    {
        Effect { output: Vec::new(), flush: false, next: Next::Continue }
    }
}

/// The machine and the host's part after an instruction, as plain values.
pub struct Outcome {
    pub registers: Registers,
    pub memory: MemoryState,
    pub effect: EffectView,
}

} // verus!
