use vstd::prelude::*;
use vstd::string::StringExecFns;

verus! {

/// The character that stands for a digit.
pub open spec fn digit(d: int) -> char
    recommends
        0 <= d < 10,
{
    if d == 0 {
        '0'
    } else if d == 1 {
        '1'
    } else if d == 2 {
        '2'
    } else if d == 3 {
        '3'
    } else if d == 4 {
        '4'
    } else if d == 5 {
        '5'
    } else if d == 6 {
        '6'
    } else if d == 7 {
        '7'
    } else if d == 8 {
        '8'
    } else {
        '9'
    }
}

/// A number written in decimal, without leading zeros.
pub open spec fn decimal(value: nat) -> Seq<char>
    decreases value,
{
    if value < 10 {
        seq![digit(value as int)]
    } else {
        decimal(value / 10).push(digit((value % 10) as int))
    }
}

/// The text of one digit.
fn digit_text(d: u16) -> (text: &'static str)
    requires
        d < 10,
    ensures
        text@ == seq![digit(d as int)],
{
    proof {
        reveal_strlit("0");
        reveal_strlit("1");
        reveal_strlit("2");
        reveal_strlit("3");
        reveal_strlit("4");
        reveal_strlit("5");
        reveal_strlit("6");
        reveal_strlit("7");
        reveal_strlit("8");
        reveal_strlit("9");
    }
    let text = match d {
        0 => "0",
        1 => "1",
        2 => "2",
        3 => "3",
        4 => "4",
        5 => "5",
        6 => "6",
        7 => "7",
        8 => "8",
        _ => "9",
    };
    assert(text@ =~= seq![digit(d as int)]);
    text
}

/// Writes a number in decimal.
fn decimal_text(value: u16) -> (text: String)
    ensures
        text@ == decimal(value as nat),
    decreases value,
{
    if value < 10 {
        String::from_str(digit_text(value))
    } else {
        let mut text = decimal_text(value / 10);
        text.append(digit_text(value % 10));
        assert(text@ =~= decimal(value as nat));
        text
    }
}

/// Why a word, or a field of a word, could not be decoded.
#[derive(Clone, Copy, PartialEq, Eq, Debug, Structural)]
pub enum DecodeError {
    /// The number names none of the ten registers.
    InvalidRegister,
    /// The word, which the error carries, is none of the three condition
    /// flag values.
    InvalidConditionFlag(u16),
    /// The low byte of a TRAP word is no known trap vector.
    InvalidTrapCode,
    /// The opcode (RTI or RES) has no meaning on this machine.
    ReservedOpcode,
}

impl DecodeError {
    /// The text of [`DecodeError::message`]. That of a word which is no
    /// condition flag begins with the word in decimal.
    pub open spec fn message_spec(self) -> Seq<char> {
        match self {
            DecodeError::InvalidRegister => "Invalid register"@,
            DecodeError::InvalidConditionFlag(value) => decimal(value as nat)
                + " is not a condition flag."@,
            DecodeError::InvalidTrapCode => "Bad trapcode"@,
            DecodeError::ReservedOpcode => "Reserved opcode"@,
        }
    }

    /// A short description for people.
    pub fn message(&self) -> (text: String)
        ensures
            text@ == self.message_spec(),
    {
        match self {
            DecodeError::InvalidRegister => "Invalid register".to_owned(),
            DecodeError::InvalidConditionFlag(value) => {
                let mut text = decimal_text(*value);
                text.append(" is not a condition flag.");
                text
            },
            DecodeError::InvalidTrapCode => "Bad trapcode".to_owned(),
            DecodeError::ReservedOpcode => "Reserved opcode".to_owned(),
        }
    }
}

/// Why a program image could not be loaded.
#[derive(Clone, Copy, PartialEq, Eq, Debug, Structural)]
pub enum ImageError {
    /// The image ends before its load address is complete.
    MissingOrigin,
    /// The image ends in the middle of a word.
    TruncatedWord,
    /// The image runs past the last address of memory.
    TooLarge,
}

impl ImageError {
    /// The text of [`ImageError::message`].
    pub open spec fn message_spec(self) -> Seq<char> {
        match self {
            ImageError::MissingOrigin => "error reading base address"@,
            ImageError::TruncatedWord => "image ends inside a word"@,
            ImageError::TooLarge => "file too large"@,
        }
    }

    /// A short description for people.
    pub fn message(&self) -> (text: String)
        ensures
            text@ == self.message_spec(),
    {
        match self {
            ImageError::MissingOrigin => "error reading base address".to_owned(),
            ImageError::TruncatedWord => "image ends inside a word".to_owned(),
            ImageError::TooLarge => "file too large".to_owned(),
        }
    }
}

} // verus!
