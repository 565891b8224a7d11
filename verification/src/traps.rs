use vstd::prelude::*;
use vstd::std_specs::convert::TryFromSpecImpl;
use crate::error::DecodeError;

verus! {

/// The system calls of the machine.
#[derive(Clone, Copy, PartialEq, Eq, Debug, Structural)]
pub enum TrapCode {
    /// Read one key into R0, without echo.
    GETC,
    /// Write the low byte of R0.
    OUT,
    /// Write the string of one character per word that R0 points to.
    PUTS,
    /// Prompt, read one key into R0 and echo it.
    IN,
    /// Write the string of two characters per word that R0 points to.
    PUTSP,
    /// Stop the machine.
    HALT,
}

impl TrapCode {
    /// The trap vector of this system call.
    pub open spec fn spec_vector(self) -> u16 {
        match self {
            TrapCode::GETC => 0x20,
            TrapCode::OUT => 0x21,
            TrapCode::PUTS => 0x22,
            TrapCode::IN => 0x23,
            TrapCode::PUTSP => 0x24,
            TrapCode::HALT => 0x25,
        }
    }

    /// The system call that the low eight bits of a word select, if any. The
    /// vector is an unsigned number: it is not sign-extended.
    pub open spec fn of(bits: u16) -> Option<TrapCode> {
        let vector = bits % 0x100;
        if vector == 0x20 {
            Some(TrapCode::GETC)
        } else if vector == 0x21 {
            Some(TrapCode::OUT)
        } else if vector == 0x22 {
            Some(TrapCode::PUTS)
        } else if vector == 0x23 {
            Some(TrapCode::IN)
        } else if vector == 0x24 {
            Some(TrapCode::PUTSP)
        } else if vector == 0x25 {
            Some(TrapCode::HALT)
        } else {
            None
        }
    }

    /// The trap vector of this system call.
    #[verifier::when_used_as_spec(spec_vector)]
    pub fn vector(self) -> (vector: u16)
        ensures
            vector == self.spec_vector(),
            TrapCode::of(vector) == Some(self),
    {
        match self {
            TrapCode::GETC => 0x20,
            TrapCode::OUT => 0x21,
            TrapCode::PUTS => 0x22,
            TrapCode::IN => 0x23,
            TrapCode::PUTSP => 0x24,
            TrapCode::HALT => 0x25,
        }
    }
}

/// The system call that the low eight bits of a word select; a vector that
/// selects none is an error.
impl TryFrom<u16> for TrapCode {
    type Error = DecodeError;

    fn try_from(bits: u16) -> (r: Result<Self, Self::Error>) {
        let vector = bits & 0xff;
        assert(vector == bits % 0x100) by (bit_vector)
            requires
                vector == bits & 0xff,
        ;
        match vector {
            0x20 => Ok(TrapCode::GETC),
            0x21 => Ok(TrapCode::OUT),
            0x22 => Ok(TrapCode::PUTS),
            0x23 => Ok(TrapCode::IN),
            0x24 => Ok(TrapCode::PUTSP),
            0x25 => Ok(TrapCode::HALT),
            _ => Err(DecodeError::InvalidTrapCode),
        }
    }
}

/// What `TrapCode::try_from` returns.
impl TryFromSpecImpl<u16> for TrapCode {
    open spec fn obeys_try_from_spec() -> bool {
        true
    }

    open spec fn try_from_spec(bits: u16) -> Result<Self, Self::Error> {
        match TrapCode::of(bits) {
            Some(code) => Ok(code),
            None => Err(DecodeError::InvalidTrapCode),
        }
    }
}

} // verus!
