use vstd::prelude::*;
use crate::effect::{Effect, EffectView, Next};
use crate::error::DecodeError;
use crate::instructions::{Instruction, InstructionType, Trap};
use crate::memory::{Memory, MemoryState};
use crate::registers::{CondFlag, Register, Registers};

verus! {

/// The address at which programs start.
pub const PC_START: u16 = 0x3000;

/// Where the run loop stands.
#[derive(Clone, Copy, PartialEq, Eq, Debug, Structural)]
pub enum State {
    /// The next step fetches an instruction.
    Running,
    /// A system call waits for a key; the next step delivers one if there is
    /// one.
    AwaitingKey { echo: bool },
    /// The machine has stopped, on HALT or on a word that it could not
    /// decode.
    Halted,
}

impl State {
    /// The state in which an instruction leaves the run loop.
    pub open spec fn after(next: Next) -> State {
        match next {
            Next::Continue => State::Running,
            Next::AwaitKey { echo } => State::AwaitingKey { echo },
            Next::Halt => State::Halted,
        }
    }
}

/// A machine, as plain values.
pub struct Machine {
    pub registers: Registers,
    pub memory: MemoryState,
    pub state: State,
}

/// A machine after one step, and what the step left for the host.
pub struct Stepped {
    pub machine: Machine,
    pub result: Result<EffectView, DecodeError>,
}

impl Machine {
    /// The word that the next fetch reads: the one at the program counter.
    pub open spec fn fetched_word(self) -> u16 {
        self.memory.read(self.registers.pc)
    }

    /// The machine after a fetch: memory is as the read leaves it and the
    /// program counter is one cell further.
    pub open spec fn after_fetch(self) -> Machine {
        Machine {
            registers: self.registers.spec_program_counter_increment(),
            memory: self.memory.after_read(self.registers.pc),
            state: self.state,
        }
    }

    /// One step of the run loop.
    ///
    /// - A halted machine stays as it is.
    /// - A machine that waits for a key takes the oldest key pressed, puts
    ///   it in R0 and runs on; without a key it goes on waiting.
    /// - A running machine fetches the word at the program counter, moves
    ///   the program counter on and decodes the word. An instruction is
    ///   executed, and its effect says how the machine goes on. The signal
    ///   to halt stops the machine with a flush, and a word that cannot be
    ///   decoded stops it with the error.
    pub open spec fn step(self) -> Stepped {
        match self.state {
            State::Halted => Stepped {
                machine: self,
                result: Ok(EffectView { output: Seq::empty(), flush: false, next: Next::Halt }),
            },
            State::AwaitingKey { echo } => match self.memory.keyboard.front() {
                Some(key) => Stepped {
                    machine: Machine {
                        registers: self.registers.spec_set(Register::R0, key as u16),
                        memory: MemoryState {
                            cells: self.memory.cells,
                            keyboard: self.memory.keyboard.take(),
                        },
                        state: State::Running,
                    },
                    result: Ok(Trap::spec_receive(key, echo)),
                },
                None => Stepped {
                    machine: Machine {
                        registers: self.registers,
                        memory: MemoryState {
                            cells: self.memory.cells,
                            keyboard: self.memory.keyboard.take(),
                        },
                        state: self.state,
                    },
                    result: Ok(
                        EffectView {
                            output: Seq::empty(),
                            flush: false,
                            next: Next::AwaitKey { echo },
                        },
                    ),
                },
            },
            State::Running => {
                let fetched = self.after_fetch();
                match Instruction::spec_try_from_bits(self.fetched_word()) {
                    Err(error) => Stepped {
                        machine: Machine { state: State::Halted, ..fetched },
                        result: Err(error),
                    },
                    Ok(InstructionType::Halt) => Stepped {
                        machine: Machine { state: State::Halted, ..fetched },
                        result: Ok(
                            EffectView { output: Seq::empty(), flush: true, next: Next::Halt },
                        ),
                    },
                    Ok(InstructionType::Continue(instruction)) => {
                        let outcome = instruction.spec_execute(fetched.registers, fetched.memory);
                        Stepped {
                            machine: Machine {
                                registers: outcome.registers,
                                memory: outcome.memory,
                                state: State::after(outcome.effect.next),
                            },
                            result: Ok(outcome.effect),
                        }
                    },
                }
            },
        }
    }
}

/// Why a run ended.
#[derive(Clone, Copy, PartialEq, Eq, Debug, Structural)]
pub enum Stop {
    /// The machine has halted.
    Halted,
    /// The machine met a word that it could not decode.
    Fault(DecodeError),
    /// A system call waits for a key and none was pressed.
    AwaitingKey,
    /// The run has made as many fetches as it was allowed.
    CycleLimit,
}

/// A machine after a run, what the run wrote, after how many of those bytes
/// it last flushed, how many instructions it fetched, and why it ended.
pub struct Ran {
    pub machine: Machine,
    pub output: Seq<u8>,
    pub flushed: Option<nat>,
    pub cycles: nat,
    pub stop: Stop,
}

impl Ran {
    /// A run that made no step.
    pub open spec fn idle(machine: Machine, stop: Stop) -> Ran {
        Ran { machine, output: Seq::empty(), flushed: None, cycles: 0, stop }
    }

    /// The run that begins with a step of the given effect and goes on as
    /// `self`: the output of the step comes first, and the last flush is the
    /// last one of the rest or else the one of the step.
    pub open spec fn after(self, effect: EffectView, fetches: nat) -> Ran {
        Ran {
            machine: self.machine,
            output: effect.output + self.output,
            flushed: match self.flushed {
                Some(count) => Some(effect.output.len() + count),
                None => if effect.flush {
                    Some(effect.output.len())
                } else {
                    None
                },
            },
            cycles: self.cycles + fetches,
            stop: self.stop,
        }
    }
}

impl Machine {
    /// The run of at most `limit` fetches: step after step until the machine
    /// has halted, cannot decode a word, waits for a key that was not
    /// pressed, or has made `limit` fetches. The output is what the steps
    /// wrote, in their order.
    pub open spec fn run(self, limit: nat) -> Ran
        decreases
                limit,
                (if self.state is AwaitingKey {
                    1nat
                } else {
                    0nat
                }),
    {
        match self.state {
            State::Halted => Ran::idle(self, Stop::Halted),
            State::AwaitingKey { echo } => {
                let stepped = self.step();
                if self.memory.keyboard.front() is None {
                    Ran::idle(stepped.machine, Stop::AwaitingKey)
                } else {
                    stepped.machine.run(limit).after(stepped.result->Ok_0, 0)
                }
            },
            State::Running => if limit == 0 {
                Ran::idle(self, Stop::CycleLimit)
            } else {
                let stepped = self.step();
                match stepped.result {
                    Err(error) => Ran {
                        machine: stepped.machine,
                        output: Seq::empty(),
                        flushed: None,
                        cycles: 1,
                        stop: Stop::Fault(error),
                    },
                    Ok(effect) => stepped.machine.run((limit - 1) as nat).after(effect, 1),
                }
            },
        }
    }
}

impl Machine {
    /// A step never leaves the condition register without a flag: where it
    /// holds one of the three flag values before the step, it holds one
    /// after.
    pub proof fn lemma_step_keeps_condition(self)
        requires
            self.registers.well_formed(),
        ensures
            self.step().machine.registers.well_formed(),
    {
        if self.state is Running {
            let fetched = self.after_fetch();
            match Instruction::spec_try_from_bits(self.fetched_word()) {
                Ok(InstructionType::Continue(instruction)) => {
                    instruction.lemma_execute_keeps_condition(fetched.registers, fetched.memory);
                },
                _ => {},
            }
        }
    }

    /// A run never leaves the condition register without a flag.
    pub proof fn lemma_run_keeps_condition(self, limit: nat)
        requires
            self.registers.well_formed(),
        ensures
            self.run(limit).machine.registers.well_formed(),
        decreases
                limit,
                (if self.state is AwaitingKey {
                    1nat
                } else {
                    0nat
                }),
    {
        self.lemma_step_keeps_condition();
        match self.state {
            State::Halted => {},
            State::AwaitingKey { echo } => {
                if self.memory.keyboard.front() is Some {
                    self.step().machine.lemma_run_keeps_condition(limit);
                }
            },
            State::Running => {
                if limit > 0 && self.step().result is Ok {
                    self.step().machine.lemma_run_keeps_condition((limit - 1) as nat);
                }
            },
        }
    }

    /// A run ends for the reason it gives. It never makes more than `limit`
    /// fetches. It ends as halted, or with a fault, exactly on a halted
    /// machine; for a key exactly on a machine that waits for one and has
    /// none; and at the limit exactly on a machine that would fetch once
    /// more, after `limit` fetches.
    pub proof fn lemma_run_ends(self, limit: nat)
        ensures
            self.run(limit).cycles <= limit,
            match self.run(limit).stop {
                Stop::Halted => self.run(limit).machine.state is Halted,
                Stop::Fault(_) => self.run(limit).machine.state is Halted,
                Stop::AwaitingKey => {
                    &&& self.run(limit).machine.state is AwaitingKey
                    &&& self.run(limit).machine.memory.keyboard.pending.len() == 0
                },
                Stop::CycleLimit => {
                    &&& self.run(limit).machine.state is Running
                    &&& self.run(limit).cycles == limit
                },
            },
        decreases
                limit,
                (if self.state is AwaitingKey {
                    1nat
                } else {
                    0nat
                }),
    {
        match self.state {
            State::Halted => {},
            State::AwaitingKey { echo } => {
                if self.memory.keyboard.front() is Some {
                    self.step().machine.lemma_run_ends(limit);
                }
            },
            State::Running => {
                if limit > 0 && self.step().result is Ok {
                    self.step().machine.lemma_run_ends((limit - 1) as nat);
                }
            },
        }
    }
}

/// What a run wrote, how many instructions it fetched, and why it ended.
/// Where the run flushed the output, `flushed` is the number of bytes of
/// `output` that it had written when it last did.
#[derive(Debug)]
pub struct Run {
    pub output: Vec<u8>,
    pub flushed: Option<usize>,
    pub cycles: u64,
    pub stop: Stop,
}

/// The virtual machine: the registers, the memory and the state of the run
/// loop.
pub struct Vm {
    pub registers: Registers,
    pub memory: Memory,
    pub state: State,
}

impl View for Vm {
    type V = Machine;

    open spec fn view(&self) -> Machine {
        Machine { registers: self.registers, memory: self.memory@, state: self.state }
    }
}

impl Vm {
    /// A machine that is about to run the program at `PC_START`: the program
    /// counter holds that address, the condition register holds ZRO, and
    /// everything else is as given.
    pub fn new(registers: Registers, memory: Memory) -> (vm: Self)
        ensures
            vm@ == (Machine {
                registers: registers.spec_set(Register::PC, PC_START).spec_set(
                    Register::COND,
                    CondFlag::ZRO.spec_bits(),
                ),
                memory: memory@,
                state: State::Running,
            }),
            vm.registers.well_formed(),
    {
        let mut registers = registers;
        registers.set(Register::PC, PC_START);
        registers.set(Register::COND, CondFlag::ZRO.bits());

        Vm { registers, memory, state: State::Running }
    }

    /// Reads the word at the program counter and moves the program counter
    /// one cell on.
    pub fn fetch_next_instruction(&mut self) -> (word: u16)
        ensures
            word == old(self)@.fetched_word(),
            final(self)@ == old(self)@.after_fetch(),
    {
        let mar = self.registers.get(Register::PC);
        self.registers.program_counter_increment();

        self.memory.read(mar)
    }

    /// Makes one step of the run loop and returns what it leaves for the
    /// host to do, or the error on which the machine stopped.
    pub fn step(&mut self) -> (result: Result<Effect, DecodeError>)
        ensures
            final(self)@ == old(self)@.step().machine,
            match result {
                Ok(effect) => old(self)@.step().result == Ok::<EffectView, DecodeError>(effect@),
                Err(error) => old(self)@.step().result == Err::<EffectView, DecodeError>(error),
            },
    {
        match self.state {
            State::Halted => Ok(Effect { output: Vec::new(), flush: false, next: Next::Halt }),
            State::AwaitingKey { echo } => match self.memory.keyboard.take() {
                Some(key) => {
                    self.state = State::Running;
                    Ok(Trap::receive(key, echo, &mut self.registers))
                },
                None => Ok(
                    Effect { output: Vec::new(), flush: false, next: Next::AwaitKey { echo } },
                ),
            },
            State::Running => {
                let word = self.fetch_next_instruction();
                match Instruction::try_from_bits(word) {
                    Err(error) => {
                        self.state = State::Halted;
                        Err(error)
                    },
                    Ok(InstructionType::Halt) => {
                        self.state = State::Halted;
                        Ok(Effect { output: Vec::new(), flush: true, next: Next::Halt })
                    },
                    Ok(InstructionType::Continue(instruction)) => {
                        let effect = instruction.execute(&mut self.registers, &mut self.memory);
                        self.state = match effect.next {
                            Next::Continue => State::Running,
                            Next::AwaitKey { echo } => State::AwaitingKey { echo },
                            Next::Halt => State::Halted,
                        };
                        Ok(effect)
                    },
                }
            },
        }
    }

    /// Runs the machine: fetches, decodes and executes until the machine has
    /// halted, meets a word that it cannot decode, waits for a key that was
    /// not pressed, or has made `cycle_limit` fetches. A run that ended for a
    /// key or for the limit goes on with the next call.
    #[verifier::rlimit(30)]
    pub fn run(&mut self, cycle_limit: u64) -> (run: Run)
        ensures
            final(self)@ == old(self)@.run(cycle_limit as nat).machine,
            run.output@ == old(self)@.run(cycle_limit as nat).output,
            match run.flushed {
                Some(count) => old(self)@.run(cycle_limit as nat).flushed == Some(count as nat),
                None => old(self)@.run(cycle_limit as nat).flushed is None,
            },
            run.cycles == old(self)@.run(cycle_limit as nat).cycles,
            run.stop == old(self)@.run(cycle_limit as nat).stop,
    {
        let mut output: Vec<u8> = Vec::new();
        let mut flushed: Option<usize> = None;
        let mut cycles: u64 = 0;
        let mut stop = Stop::Halted;
        let ghost whole = self@.run(cycle_limit as nat);
        assert(Seq::<u8>::empty() + whole.output =~= whole.output);
        loop
            invariant_except_break
                cycles <= cycle_limit,
                whole.machine == self@.run((cycle_limit - cycles) as nat).machine,
                whole.output == output@ + self@.run((cycle_limit - cycles) as nat).output,
                whole.flushed == match self@.run((cycle_limit - cycles) as nat).flushed {
                    Some(count) => Some(output@.len() + count),
                    None => match flushed {
                        Some(count) => Some(count as nat),
                        None => None,
                    },
                },
                whole.cycles == cycles + self@.run((cycle_limit - cycles) as nat).cycles,
                whole.stop == self@.run((cycle_limit - cycles) as nat).stop,
            ensures
                self@ == whole.machine,
                output@ == whole.output,
                whole.flushed == match flushed {
                    Some(count) => Some(count as nat),
                    None => None,
                },
                cycles == whole.cycles,
                stop == whole.stop,
            decreases
                    cycle_limit - cycles,
                    (if self.state is AwaitingKey {
                        1nat
                    } else {
                        0nat
                    }),
        {
            let ghost written = output@;
            assert(written + Seq::<u8>::empty() =~= written);
            let fetching = match self.state {
                State::Halted => {
                    stop = Stop::Halted;
                    break;
                },
                State::Running => {
                    if cycles == cycle_limit {
                        stop = Stop::CycleLimit;
                        break;
                    }
                    true
                },
                State::AwaitingKey { .. } => false,
            };
            let starved = !fetching && self.memory.keyboard.pending() == 0;
            match self.step() {
                Err(error) => {
                    cycles = cycles + 1;
                    stop = Stop::Fault(error);
                    break;
                },
                Ok(effect) => {
                    if starved {
                        stop = Stop::AwaitingKey;
                        break;
                    }
                    let mut effect = effect;
                    let ghost step_output = effect.output@;
                    output.append(&mut effect.output);
                    if effect.flush {
                        flushed = Some(output.len());
                    }
                    if fetching {
                        cycles = cycles + 1;
                    }
                    assert(output@ + self@.run((cycle_limit - cycles) as nat).output =~= written
                        + (step_output + self@.run((cycle_limit - cycles) as nat).output));
                },
            }
        }
        Run { output, flushed, cycles, stop }
    }
}

} // verus!
