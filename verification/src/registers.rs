use vstd::prelude::*;
use vstd::std_specs::convert::TryFromSpecImpl;
use crate::error::DecodeError;

verus! {

/// The names of the ten register cells.
#[derive(Clone, Copy, PartialEq, Eq, Debug, Structural)]
pub enum Register {
    R0,
    R1,
    R2,
    R3,
    R4,
    R5,
    R6,
    R7,
    PC,
    COND,
}

impl Register {
    /// The register that a number names, if it names one.
    pub open spec fn from_index(value: u16) -> Option<Register> {
        if value == 0 {
            Some(Register::R0)
        } else if value == 1 {
            Some(Register::R1)
        } else if value == 2 {
            Some(Register::R2)
        } else if value == 3 {
            Some(Register::R3)
        } else if value == 4 {
            Some(Register::R4)
        } else if value == 5 {
            Some(Register::R5)
        } else if value == 6 {
            Some(Register::R6)
        } else if value == 7 {
            Some(Register::R7)
        } else if value == 8 {
            Some(Register::PC)
        } else if value == 9 {
            Some(Register::COND)
        } else {
            None
        }
    }

    /// The number that names this register.
    pub open spec fn index(self) -> u16 {
        match self {
            Register::R0 => 0,
            Register::R1 => 1,
            Register::R2 => 2,
            Register::R3 => 3,
            Register::R4 => 4,
            Register::R5 => 5,
            Register::R6 => 6,
            Register::R7 => 7,
            Register::PC => 8,
            Register::COND => 9,
        }
    }

    /// Whether this is one of R0 to R7.
    pub open spec fn is_general(self) -> bool {
        self.index() < 8
    }

    /// The general-purpose register named by a three-bit field.
    pub open spec fn general(field: u16) -> Register
        recommends
            field < 8,
    {
        Register::from_index(field).unwrap()
    }

    /// Decodes a three-bit register field, which always names one of R0 to R7.
    pub(crate) fn from_field(field: u16) -> (r: Register)
        requires
            field < 8,
        ensures
            r == Register::general(field),
            r.is_general(),
            r.index() == field,
    {
        let decoded = Register::try_from(field);
        decoded.unwrap()
    }
}

/// The register that a number names: 0 to 7 name R0 to R7, 8 the program
/// counter and 9 the condition register; any other number is an error.
impl TryFrom<u16> for Register {
    type Error = DecodeError;

    fn try_from(value: u16) -> (r: Result<Self, Self::Error>) {
        match value {
            0 => Ok(Register::R0),
            1 => Ok(Register::R1),
            2 => Ok(Register::R2),
            3 => Ok(Register::R3),
            4 => Ok(Register::R4),
            5 => Ok(Register::R5),
            6 => Ok(Register::R6),
            7 => Ok(Register::R7),
            8 => Ok(Register::PC),
            9 => Ok(Register::COND),
            _ => Err(DecodeError::InvalidRegister),
        }
    }
}

/// What `Register::try_from` returns.
impl TryFromSpecImpl<u16> for Register {
    open spec fn obeys_try_from_spec() -> bool {
        true
    }

    open spec fn try_from_spec(value: u16) -> Result<Self, Self::Error> {
        match Register::from_index(value) {
            Some(register) => Ok(register),
            None => Err(DecodeError::InvalidRegister),
        }
    }
}

/// The three values that the condition register takes.
#[derive(Clone, Copy, PartialEq, Eq, Debug, Structural)]
pub enum CondFlag {
    POS,
    ZRO,
    NEG,
}

impl CondFlag {
    /// The word that stands for this flag in the condition register.
    pub open spec fn spec_bits(self) -> u16 {
        match self {
            CondFlag::POS => 1,
            CondFlag::ZRO => 2,
            CondFlag::NEG => 4,
        }
    }

    /// The flag that describes `value` read as a signed number: ZRO for zero,
    /// NEG where the high bit is set, POS otherwise.
    pub open spec fn of(value: u16) -> CondFlag {
        if value == 0 {
            CondFlag::ZRO
        } else if value >= 0x8000 {
            CondFlag::NEG
        } else {
            CondFlag::POS
        }
    }

    /// The flag that a word of the condition register stands for, if any.
    pub open spec fn from_bits(value: u16) -> Option<CondFlag> {
        if value == 1 {
            Some(CondFlag::POS)
        } else if value == 2 {
            Some(CondFlag::ZRO)
        } else if value == 4 {
            Some(CondFlag::NEG)
        } else {
            None
        }
    }

    /// The word that stands for this flag in the condition register.
    #[verifier::when_used_as_spec(spec_bits)]
    pub fn bits(self) -> (r: u16)
        ensures
            r == self.spec_bits(),
            CondFlag::from_bits(r) == Some(self),
    {
        match self {
            CondFlag::POS => 1,
            CondFlag::ZRO => 2,
            CondFlag::NEG => 4,
        }
    }
}

/// The flag that a word of the condition register stands for: 1 is POS, 2 is
/// ZRO and 4 is NEG; any other word is an error, which carries the word.
impl TryFrom<u16> for CondFlag {
    type Error = DecodeError;

    fn try_from(value: u16) -> (r: Result<Self, Self::Error>) {
        if value == 1 {
            Ok(CondFlag::POS)
        } else if value == 2 {
            Ok(CondFlag::ZRO)
        } else if value == 4 {
            Ok(CondFlag::NEG)
        } else {
            Err(DecodeError::InvalidConditionFlag(value))
        }
    }
}

/// What `CondFlag::try_from` returns.
impl TryFromSpecImpl<u16> for CondFlag {
    open spec fn obeys_try_from_spec() -> bool {
        true
    }

    open spec fn try_from_spec(value: u16) -> Result<Self, Self::Error> {
        match CondFlag::from_bits(value) {
            Some(flag) => Ok(flag),
            None => Err(DecodeError::InvalidConditionFlag(value)),
        }
    }
}

/// The addresses at which the keyboard shows in memory.
#[derive(Clone, Copy, PartialEq, Eq, Debug, Structural)]
pub enum MemoryMappedReg {
    /// Keyboard status: bit 15 is set while a key is waiting in the data register.
    Kbsr,
    /// Keyboard data: the key last polled.
    Kbdr,
}

/// The address of the keyboard status register.
pub const KBSR: u16 = 0xFE00;

/// The address of the keyboard data register.
pub const KBDR: u16 = 0xFE02;

impl MemoryMappedReg {
    /// The address of this device register.
    pub open spec fn spec_address(self) -> u16 {
        match self {
            MemoryMappedReg::Kbsr => KBSR,
            MemoryMappedReg::Kbdr => KBDR,
        }
    }

    /// The address of this device register.
    #[verifier::when_used_as_spec(spec_address)]
    pub fn address(self) -> (r: u16)
        ensures
            r == self.spec_address(),
    {
        match self {
            MemoryMappedReg::Kbsr => KBSR,
            MemoryMappedReg::Kbdr => KBDR,
        }
    }
}

/// The register file: eight general-purpose registers, the program counter and
/// the condition register.
#[derive(Clone, Copy, PartialEq, Eq, Debug, Structural)]
pub struct Registers {
    pub r0: u16,
    pub r1: u16,
    pub r2: u16,
    pub r3: u16,
    pub r4: u16,
    pub r5: u16,
    pub r6: u16,
    pub r7: u16,
    pub pc: u16,
    pub cond: u16,
}

impl Default for Registers {
    fn default() -> (r: Self)
        ensures
            r == Registers::zeroed(),
    {
        Registers { r0: 0, r1: 0, r2: 0, r3: 0, r4: 0, r5: 0, r6: 0, r7: 0, pc: 0, cond: 0 }
    }
}

/// The sum of two words modulo 2^16.
pub open spec fn wrapping_sum(a: u16, b: u16) -> u16 {
    ((a + b) % 0x10000) as u16
}

/// Adding the word that stands for a negative number subtracts: where
/// `field` is a number of a field whose values from `span / 2` up stand for
/// `field - span`, the word `field + 2^16 - span` added to `a` gives
/// `a + field - span` modulo 2^16.
pub proof fn lemma_wrapping_sum_of_negative(a: u16, field: u16, span: int)
    requires
        0 < span <= 0x10000,
        field < span,
    ensures
        wrapping_sum(a, (field + 0x10000 - span) as u16) == (a + field - span) % 0x10000,
{
}

impl Registers {
    /// The register file with every cell zero.
    pub open spec fn zeroed() -> Registers {
        Registers { r0: 0, r1: 0, r2: 0, r3: 0, r4: 0, r5: 0, r6: 0, r7: 0, pc: 0, cond: 0 }
    }

    /// The content of one register.
    pub open spec fn spec_get(&self, register: Register) -> u16 {
        match register {
            Register::R0 => self.r0,
            Register::R1 => self.r1,
            Register::R2 => self.r2,
            Register::R3 => self.r3,
            Register::R4 => self.r4,
            Register::R5 => self.r5,
            Register::R6 => self.r6,
            Register::R7 => self.r7,
            Register::PC => self.pc,
            Register::COND => self.cond,
        }
    }

    /// The register file with one register replaced.
    pub open spec fn spec_set(self, register: Register, new: u16) -> Registers {
        match register {
            Register::R0 => Registers { r0: new, ..self },
            Register::R1 => Registers { r1: new, ..self },
            Register::R2 => Registers { r2: new, ..self },
            Register::R3 => Registers { r3: new, ..self },
            Register::R4 => Registers { r4: new, ..self },
            Register::R5 => Registers { r5: new, ..self },
            Register::R6 => Registers { r6: new, ..self },
            Register::R7 => Registers { r7: new, ..self },
            Register::PC => Registers { pc: new, ..self },
            Register::COND => Registers { cond: new, ..self },
        }
    }

    /// The register file with the condition register describing `register`.
    pub open spec fn spec_update_flags(self, register: Register) -> Registers {
        Registers { cond: CondFlag::of(self.spec_get(register)).spec_bits(), ..self }
    }

    /// The register file with the program counter one cell further, past the
    /// last address back to zero.
    pub open spec fn spec_program_counter_increment(self) -> Registers {
        Registers { pc: wrapping_sum(self.pc, 1), ..self }
    }

    /// `register` written with `value` and the condition register describing it.
    pub open spec fn spec_load(self, register: Register, value: u16) -> Registers {
        self.spec_set(register, value).spec_update_flags(register)
    }

    /// The condition register holds one of the three flag values.
    pub open spec fn well_formed(self) -> bool {
        CondFlag::from_bits(self.cond) is Some
    }

    /// A register that was written holds what was written, and every other
    /// register holds what it held.
    pub proof fn lemma_set_get(self, register: Register, new: u16, other: Register)
        ensures
            self.spec_set(register, new).spec_get(register) == new,
            other != register ==> self.spec_set(register, new).spec_get(other) == self.spec_get(
                other,
            ),
    {
    }

    /// A register that was loaded holds the value, unless it is the condition
    /// register itself, and the condition register holds the flag of the
    /// value.
    pub proof fn lemma_load(self, register: Register, value: u16)
        ensures
            register != Register::COND ==> self.spec_load(register, value).spec_get(register)
                == value,
            self.spec_load(register, value).cond == CondFlag::of(value).spec_bits(),
            self.spec_load(register, value).well_formed(),
    {
    }

    /// Reads one register.
    #[verifier::when_used_as_spec(spec_get)]
    pub fn get(&self, register: Register) -> (r: u16)
        ensures
            r == self.spec_get(register),
    {
        match register {
            Register::R0 => self.r0,
            Register::R1 => self.r1,
            Register::R2 => self.r2,
            Register::R3 => self.r3,
            Register::R4 => self.r4,
            Register::R5 => self.r5,
            Register::R6 => self.r6,
            Register::R7 => self.r7,
            Register::PC => self.pc,
            Register::COND => self.cond,
        }
    }

    /// Writes one register and leaves the others as they were.
    pub fn set(&mut self, register: Register, new: u16)
        ensures
            *final(self) == old(self).spec_set(register, new),
    {
        match register {
            Register::R0 => self.r0 = new,
            Register::R1 => self.r1 = new,
            Register::R2 => self.r2 = new,
            Register::R3 => self.r3 = new,
            Register::R4 => self.r4 = new,
            Register::R5 => self.r5 = new,
            Register::R6 => self.r6 = new,
            Register::R7 => self.r7 = new,
            Register::PC => self.pc = new,
            Register::COND => self.cond = new,
        };
    }

    /// Sets the condition register to the flag that describes the content of
    /// `register`: ZRO for zero, NEG where the high bit is set, POS otherwise.
    pub fn update_flags(&mut self, register: Register)
        ensures
            *final(self) == old(self).spec_update_flags(register),
            final(self).cond == CondFlag::of(old(self).spec_get(register)).spec_bits(),
            final(self).well_formed(),
    {
        let value = self.get(register);
        assert(value >> 15 == 1 <==> value >= 0x8000) by (bit_vector);
        let flag = if value == 0 {
            CondFlag::ZRO
        } else if value >> 15 == 1 {
            CondFlag::NEG
        } else {
            CondFlag::POS
        };
        self.set(Register::COND, flag.bits());
    }

    /// Writes `value` to `register` and sets the condition register by it.
    pub fn load(&mut self, register: Register, value: u16)
        ensures
            *final(self) == old(self).spec_load(register, value),
            final(self).cond == CondFlag::of(value).spec_bits(),
            final(self).well_formed(),
            register != Register::COND ==> final(self).spec_get(register) == value,
    {
        self.set(register, value);
        self.update_flags(register);
    }

    /// Moves the program counter one cell on, past the last address back to zero.
    pub fn program_counter_increment(&mut self)
        ensures
            *final(self) == old(self).spec_program_counter_increment(),
    {
        self.pc = self.pc.wrapping_add(1);
    }
}

} // verus!
