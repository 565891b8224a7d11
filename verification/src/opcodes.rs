use vstd::prelude::*;
use vstd::std_specs::convert::FromSpecImpl;

verus! {

/// The sixteen operation classes, in the order of their numbers.
#[derive(Clone, Copy, PartialEq, Eq, Debug, Structural)]
pub enum Opcode {
    BR,
    ADD,
    LD,
    ST,
    JSR,
    AND,
    LDR,
    STR,
    RTI,
    NOT,
    LDI,
    STI,
    JMP,
    RES,
    LEA,
    TRAP,
}

impl Opcode {
    /// The number of this opcode: what the top four bits of its words hold.
    pub open spec fn number(self) -> u16 {
        match self {
            Opcode::BR => 0,
            Opcode::ADD => 1,
            Opcode::LD => 2,
            Opcode::ST => 3,
            Opcode::JSR => 4,
            Opcode::AND => 5,
            Opcode::LDR => 6,
            Opcode::STR => 7,
            Opcode::RTI => 8,
            Opcode::NOT => 9,
            Opcode::LDI => 10,
            Opcode::STI => 11,
            Opcode::JMP => 12,
            Opcode::RES => 13,
            Opcode::LEA => 14,
            Opcode::TRAP => 15,
        }
    }

    /// The opcode of a word: the one whose number stands in bits 15 to 12.
    pub open spec fn of(bits: u16) -> Opcode {
        let nibble = bits / 0x1000;
        if nibble == 0 {
            Opcode::BR
        } else if nibble == 1 {
            Opcode::ADD
        } else if nibble == 2 {
            Opcode::LD
        } else if nibble == 3 {
            Opcode::ST
        } else if nibble == 4 {
            Opcode::JSR
        } else if nibble == 5 {
            Opcode::AND
        } else if nibble == 6 {
            Opcode::LDR
        } else if nibble == 7 {
            Opcode::STR
        } else if nibble == 8 {
            Opcode::RTI
        } else if nibble == 9 {
            Opcode::NOT
        } else if nibble == 10 {
            Opcode::LDI
        } else if nibble == 11 {
            Opcode::STI
        } else if nibble == 12 {
            Opcode::JMP
        } else if nibble == 13 {
            Opcode::RES
        } else if nibble == 14 {
            Opcode::LEA
        } else {
            Opcode::TRAP
        }
    }

    /// Every word has an opcode, and it is the one whose number the word's
    /// top four bits hold.
    pub proof fn lemma_of_number(bits: u16)
        ensures
            Opcode::of(bits).number() == bits / 0x1000,
            Opcode::of(bits).number() == bits >> 12,
    {
        assert(bits >> 12 == bits / 0x1000) by (bit_vector);
    }
}

/// The opcode of a word. Every word has one.
impl From<u16> for Opcode {
    fn from(bits: u16) -> (opcode: Self) {
        let nibble = bits >> 12;
        assert(nibble == bits / 0x1000) by (bit_vector)
            requires
                nibble == bits >> 12,
        ;
        match nibble {
            0b0000 => Opcode::BR,
            0b0001 => Opcode::ADD,
            0b0010 => Opcode::LD,
            0b0011 => Opcode::ST,
            0b0100 => Opcode::JSR,
            0b0101 => Opcode::AND,
            0b0110 => Opcode::LDR,
            0b0111 => Opcode::STR,
            0b1000 => Opcode::RTI,
            0b1001 => Opcode::NOT,
            0b1010 => Opcode::LDI,
            0b1011 => Opcode::STI,
            0b1100 => Opcode::JMP,
            0b1101 => Opcode::RES,
            0b1110 => Opcode::LEA,
            _ => Opcode::TRAP,
        }
    }
}

/// What `Opcode::from` returns.
impl FromSpecImpl<u16> for Opcode {
    open spec fn obeys_from_spec() -> bool {
        true
    }

    open spec fn from_spec(bits: u16) -> Self {
        Opcode::of(bits)
    }
}

} // verus!
