use vstd::prelude::*;
use crate::memory::{Memory, KEY_READY};
use crate::registers::MemoryMappedReg;

verus! {

/// The value of `x` with bit `bit_count - 1` copied into every higher bit:
/// where that bit is set, `x` with all bits from `bit_count` up set as well;
/// otherwise `x` itself.
pub open spec fn sign_extend_spec(x: u16, bit_count: u8) -> u16 {
    if (x >> ((bit_count - 1) as u16)) & 1 != 0 {
        if bit_count >= 16 {
            x
        } else {
            x | (0xFFFFu16 << (bit_count as u16))
        }
    } else {
        x
    }
}

/// Widens a field of `bit_count` bits, read as a two's-complement number, to
/// sixteen bits.
pub fn sign_extend(x: u16, bit_count: u8) -> (r: u16)
    requires
        1 <= bit_count <= 16,
    ensures
        r == sign_extend_spec(x, bit_count),
{
    let shift: u16 = (bit_count - 1) as u16;
    if (x >> shift) & 1 != 0 {
        if bit_count >= 16 {
            x
        } else {
            x | (0xFFFFu16 << (bit_count as u16))
        }
    } else {
        x
    }
}

/// The extension of a `bit_count`-bit value is negative, read as a
/// sixteen-bit two's-complement number, exactly where the top bit of the
/// field is set; a sixteen-bit value is its own extension.
pub proof fn lemma_sign_extend_sign(v: u16, bit_count: u8)
    requires
        1 <= bit_count <= 16,
        bit_count < 16 ==> v < (1u32 << (bit_count as u32)),
    ensures
        sign_extend_spec(v, bit_count) >= 0x8000 <==> (v >> ((bit_count - 1) as u16)) & 1 == 1,
        bit_count == 16 ==> sign_extend_spec(v, bit_count) == v,
{
    let n: u16 = bit_count as u16;
    let s: u16 = (bit_count - 1) as u16;
    assert((v >> s) & 1 == 0 || (v >> s) & 1 == 1) by (bit_vector);
    if bit_count == 16 {
        assert((v >> 15u16) & 1 == 1 <==> v >= 0x8000) by (bit_vector);
    } else {
        let bound: u32 = 1u32 << (bit_count as u32);
        assert(bound == 1u32 << (n as u32));
        assert((v | (0xFFFFu16 << n)) >= 0x8000) by (bit_vector)
            requires
                1 <= n < 16,
        ;
        assert(v < 0x8000) by (bit_vector)
            requires
                1 <= n < 16,
                v < (1u32 << (n as u32)),
        ;
    }
}

/// Sign extension keeps the number that the field stands for: a field whose
/// top bit is clear stands for itself, one whose top bit is set stands for
/// itself less 2^`bit_count`, which as a sixteen-bit word is itself plus
/// 2^16 - 2^`bit_count`.
pub proof fn lemma_sign_extend_value(v: u16, bit_count: u8)
    requires
        1 <= bit_count <= 16,
        v < (1u32 << (bit_count as u32)),
    ensures
        v < (1u32 << ((bit_count - 1) as u32)) ==> sign_extend_spec(v, bit_count) == v,
        v >= (1u32 << ((bit_count - 1) as u32)) ==> sign_extend_spec(v, bit_count) == v + 0x10000
            - (1u32 << (bit_count as u32)),
{
    let n: u16 = bit_count as u16;
    let s: u16 = (bit_count - 1) as u16;
    assert(1u32 << ((bit_count - 1) as u32) == 1u32 << (s as u32));
    assert(1u32 << (bit_count as u32) == 1u32 << (n as u32));
    assert(((v >> s) & 1 != 0) <==> v >= (1u32 << (s as u32))) by (bit_vector)
        requires
            1 <= n <= 16,
            s == n - 1,
            v < (1u32 << (n as u32)),
    ;
    if bit_count < 16 {
        assert((v >> s) & 1 != 0 ==> (v | (0xFFFFu16 << n)) == v + 0x10000 - (1u32 << (n as u32)))
            by (bit_vector)
            requires
                1 <= n < 16,
                s == n - 1,
                v < (1u32 << (n as u32)),
        ;
    } else {
        assert(1u32 << 16u32 == 0x10000) by (bit_vector);
    }
}

/// Polls the keyboard: where a key waits, it is taken, the status register
/// is set to `KEY_READY` and the data register to the key; where none waits,
/// the status register is cleared.
pub fn handle_keyboard(memory: &mut Memory)
    ensures
        final(memory)@ == old(memory)@.poll(),
{
    match memory.keyboard.take() {
        Some(key) => {
            memory.write(MemoryMappedReg::Kbsr.address(), KEY_READY);
            memory.write(MemoryMappedReg::Kbdr.address(), key as u16);
        },
        None => {
            memory.write(MemoryMappedReg::Kbsr.address(), 0)
        },
    }
}

} // verus!
