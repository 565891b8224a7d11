use vstd::prelude::*;
use crate::registers::Register;
use crate::utils::{sign_extend, sign_extend_spec};

verus! {

/// The number in bits 11 to 9 of a word: where most instructions name their
/// destination or source register.
pub open spec fn bits_11_9(bits: u16) -> u16 {
    (bits / 0x200) % 8
}

/// The number in bits 8 to 6 of a word: where instructions name their first
/// source or base register.
pub open spec fn bits_8_6(bits: u16) -> u16 {
    (bits / 0x40) % 8
}

/// The number in bits 2 to 0 of a word: where ADD and AND name their second
/// source register.
pub open spec fn bits_2_0(bits: u16) -> u16 {
    bits % 8
}

/// Whether bit `index` of a word is set.
pub open spec fn bit_set(bits: u16, index: u16) -> bool {
    (bits >> index) & 1 == 1
}

/// The five-bit immediate in bits 4 to 0, sign-extended.
pub open spec fn spec_imm5(bits: u16) -> u16 {
    sign_extend_spec(bits % 0x20, 5)
}

/// The six-bit offset in bits 5 to 0, sign-extended.
pub open spec fn spec_offset6(bits: u16) -> u16 {
    sign_extend_spec(bits % 0x40, 6)
}

/// The nine-bit offset in bits 8 to 0, sign-extended.
pub open spec fn spec_offset9(bits: u16) -> u16 {
    sign_extend_spec(bits % 0x200, 9)
}

/// The eleven-bit offset in bits 10 to 0, sign-extended.
pub open spec fn spec_offset11(bits: u16) -> u16 {
    sign_extend_spec(bits % 0x800, 11)
}

/// The register that bits 11 to 9 name.
pub fn register_11_9(bits: u16) -> (register: Register)
    ensures
        register == Register::general(bits_11_9(bits)),
        register.is_general(),
{
    let field = (bits >> 9) & 0b111;
    proof {
        lemma_fields_are_bit_ranges(bits);
    }
    Register::from_field(field)
}

/// The register that bits 8 to 6 name.
pub fn register_8_6(bits: u16) -> (register: Register)
    ensures
        register == Register::general(bits_8_6(bits)),
        register.is_general(),
{
    let field = (bits >> 6) & 0b111;
    proof {
        lemma_fields_are_bit_ranges(bits);
    }
    Register::from_field(field)
}

/// The register that bits 2 to 0 name.
pub fn register_2_0(bits: u16) -> (register: Register)
    ensures
        register == Register::general(bits_2_0(bits)),
        register.is_general(),
{
    let field = bits & 0b111;
    proof {
        lemma_fields_are_bit_ranges(bits);
    }
    Register::from_field(field)
}

/// Whether bit `index` of a word is set.
pub fn flag(bits: u16, index: u16) -> (set: bool)
    requires
        index < 16,
    ensures
        set == bit_set(bits, index),
{
    (bits >> index) & 0b1 == 1
}

/// The five-bit immediate in bits 4 to 0, sign-extended.
pub fn imm5(bits: u16) -> (value: u16)
    ensures
        value == spec_imm5(bits),
{
    let field = bits & 0b0000_0000_0001_1111;
    proof {
        lemma_fields_are_bit_ranges(bits);
    }
    sign_extend(field, 5)
}

/// The six-bit offset in bits 5 to 0, sign-extended.
pub fn offset6(bits: u16) -> (value: u16)
    ensures
        value == spec_offset6(bits),
{
    let field = bits & 0b111111;
    proof {
        lemma_fields_are_bit_ranges(bits);
    }
    sign_extend(field, 6)
}

/// The nine-bit offset in bits 8 to 0, sign-extended.
pub fn offset9(bits: u16) -> (value: u16)
    ensures
        value == spec_offset9(bits),
{
    let field = bits & 0x1ff;
    proof {
        lemma_fields_are_bit_ranges(bits);
    }
    sign_extend(field, 9)
}

/// The eleven-bit offset in bits 10 to 0, sign-extended.
pub fn offset11(bits: u16) -> (value: u16)
    ensures
        value == spec_offset11(bits),
{
    let field = bits & 0b0000_0111_1111_1111;
    proof {
        lemma_fields_are_bit_ranges(bits);
    }
    sign_extend(field, 11)
}

/// The fields are the bit ranges that their names give: each is what is left
/// of the word after a shift to the right and a mask.
pub proof fn lemma_fields_are_bit_ranges(bits: u16)
    by (bit_vector)
    ensures
        bits_11_9(bits) == (bits >> 9) & 0b111,
        bits_8_6(bits) == (bits >> 6) & 0b111,
        bits_2_0(bits) == bits & 0b111,
        bits % 0x20 == bits & 0b1_1111,
        bits % 0x40 == bits & 0b11_1111,
        bits % 0x200 == bits & 0b1_1111_1111,
        bits % 0x800 == bits & 0b111_1111_1111,
{
}

} // verus!
