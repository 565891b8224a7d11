use lc3_vm::utils::sign_extend;

#[test]
fn test_sign_extend_positive() {
    assert_eq!(sign_extend(0b0000_0001, 2), 0b0000_0000_0000_0001);
    assert_eq!(sign_extend(0b0000_0100, 4), 0b0000_0000_0000_0100);
}

#[test]
fn test_sign_extend_negative() {
    assert_eq!(sign_extend(0b0000_1001, 4), 0b1111_1111_1111_1001);
    assert_eq!(sign_extend(0b0000_0110, 3), 0b1111_1111_1111_1110);
}

#[test]
fn sign_extend_is_negative_exactly_where_the_top_bit_is_set() {
    for n in 1u8..=16 {
        let count: u32 = 1 << n;
        for v in 0..count {
            let v = v as u16;
            let extended = sign_extend(v, n);
            let top = (v >> (n - 1)) & 1 == 1;
            assert_eq!(extended & 0x8000 != 0, top);
            let expected = if top {
                (v as i32) - (1i32 << n)
            } else {
                v as i32
            };
            assert_eq!(extended as i16 as i32, expected);
        }
    }
}

#[test]
fn sign_extend_of_sixteen_bits_is_the_identity() {
    for v in [0u16, 1, 0x7FFF, 0x8000, 0xABCD, 0xFFFF] {
        assert_eq!(sign_extend(v, 16), v);
    }
}

#[test]
fn sign_extend_of_one_bit() {
    assert_eq!(sign_extend(0, 1), 0);
    assert_eq!(sign_extend(1, 1), 0xFFFF);
}
