use commit_wrapper::codec::{
    array_from_slice, i16_to_le_bytes, i64_from_bits, i64_from_le_slice, i64_to_bits,
    i64_to_le_bytes, u16_from_le_bytes, u16_to_le_bytes, u32_from_le_slice, u32_to_le_bytes,
    u64_from_le_slice, u64_to_le_bytes,
};

#[test]
fn numbers_are_packed_as_the_machine_packs_them() {
    for x in [0u16, 1, 255, 256, 0x1234, u16::MAX] {
        assert_eq!(u16_to_le_bytes(x), x.to_le_bytes());
        assert_eq!(u16_from_le_bytes(&x.to_le_bytes()), x);
    }
    for x in [0u32, 1, 255, 256, 65535, 65536, 0x12345678, u32::MAX] {
        assert_eq!(u32_to_le_bytes(x), x.to_le_bytes());
        assert_eq!(u32_from_le_slice(&x.to_le_bytes(), 0), x);
    }
    for x in [0u64, 1, u32::MAX as u64, u32::MAX as u64 + 1, 0x0123456789abcdef, u64::MAX] {
        assert_eq!(u64_to_le_bytes(x), x.to_le_bytes());
        assert_eq!(u64_from_le_slice(&x.to_le_bytes(), 0), x);
    }
    for x in [0i64, 1, -1, i64::MIN, i64::MAX, 1_700_000_000, -1_700_000_000] {
        assert_eq!(i64_to_le_bytes(x), x.to_le_bytes());
        assert_eq!(i64_from_le_slice(&x.to_le_bytes(), 0), x);
        assert_eq!(i64_to_bits(x), x as u64);
        assert_eq!(i64_from_bits(x as u64), x);
    }
    for x in [0i16, 1, -1, i16::MIN, i16::MAX, 300, -300] {
        assert_eq!(i16_to_le_bytes(x), x.to_le_bytes());
    }
}

#[test]
fn exact_bytes() {
    assert_eq!(u16_to_le_bytes(0x0102), [2, 1]);
    assert_eq!(u32_to_le_bytes(0x01020304), [4, 3, 2, 1]);
    assert_eq!(u64_to_le_bytes(1_000_000), [0x40, 0x42, 0x0f, 0, 0, 0, 0, 0]);
    assert_eq!(i64_to_le_bytes(-2), [0xfe, 0xff, 0xff, 0xff, 0xff, 0xff, 0xff, 0xff]);
    assert_eq!(i16_to_le_bytes(-1), [0xff, 0xff]);
    assert_eq!(i64_from_bits(1 << 63), i64::MIN);
}

#[test]
fn numbers_are_read_where_they_stand() {
    let bytes = [9u8, 1, 0, 0, 0, 2, 0, 0, 0, 0, 0, 0, 0, 9];
    assert_eq!(u32_from_le_slice(&bytes, 1), 1);
    assert_eq!(u64_from_le_slice(&bytes, 5), 2);
    assert_eq!(i64_from_le_slice(&bytes, 5), 2);
    assert_eq!(array_from_slice::<4>(&bytes, 1), [1, 0, 0, 0]);
    assert_eq!(array_from_slice::<1>(&bytes, 13), [9]);
    assert_eq!(array_from_slice::<0>(&bytes, 14), []);
}
