use number_bytes::{
    FromBytesError, NumberBytes, NumberBytesEndianness, NumberBytesEndiannessExt,
};

const ORDERS: [NumberBytesEndianness; 3] = [
    NumberBytesEndianness::NativeEndian,
    NumberBytesEndianness::BigEndian,
    NumberBytesEndianness::LittleEndian,
];

fn host_is_little_endian() -> bool {
    u16::to_ne_bytes(1)[0] == 1
}

#[test]
fn scenario_encode_u32_big() {
    let bytes = <u32 as NumberBytesEndiannessExt>::to_bytes(
        0x12345678,
        NumberBytesEndianness::BigEndian,
    );
    assert_eq!(bytes, vec![0x12, 0x34, 0x56, 0x78]);
}

#[test]
fn scenario_encode_u32_little() {
    let bytes = <u32 as NumberBytesEndiannessExt>::to_bytes(
        0x12345678,
        NumberBytesEndianness::LittleEndian,
    );
    assert_eq!(bytes, vec![0x78, 0x56, 0x34, 0x12]);
}

#[test]
fn scenario_decode_u32_big() {
    let decoded = <u32 as NumberBytesEndiannessExt>::from_bytes(
        &[0x12, 0x34, 0x56, 0x78],
        NumberBytesEndianness::BigEndian,
    );
    assert_eq!(decoded, Ok(0x12345678));
}

#[test]
fn scenario_decode_three_bytes_as_u32_fails() {
    let decoded = <u32 as NumberBytesEndiannessExt>::from_bytes(
        &[0x01, 0x02, 0x03],
        NumberBytesEndianness::BigEndian,
    );
    assert_eq!(
        decoded,
        Err(FromBytesError {
            expected: 4,
            actual: 3
        })
    );
}

#[test]
fn scenario_u64_width_is_eight() {
    assert_eq!(<u64 as NumberBytes>::bytes(), 8);
}

#[test]
fn widths_match_bit_widths() {
    assert_eq!(<u8 as NumberBytes>::bytes(), 1);
    assert_eq!(<u16 as NumberBytes>::bytes(), 2);
    assert_eq!(<u32 as NumberBytes>::bytes(), 4);
    assert_eq!(<u128 as NumberBytes>::bytes(), 16);
    assert_eq!(<i8 as NumberBytes>::bytes(), 1);
    assert_eq!(<i16 as NumberBytes>::bytes(), 2);
    assert_eq!(<i32 as NumberBytes>::bytes(), 4);
    assert_eq!(<i64 as NumberBytes>::bytes(), 8);
    assert_eq!(<i128 as NumberBytes>::bytes(), 16);
    assert_eq!(
        <usize as NumberBytes>::bytes(),
        usize::BITS as usize / 8
    );
    assert_eq!(
        <isize as NumberBytes>::bytes(),
        usize::BITS as usize / 8
    );
}

#[test]
fn round_trip_usize() {
    for v in [0usize, 1, 0x12345678, usize::MAX] {
        for order in ORDERS {
            let bytes = v.to_bytes(order);
            assert_eq!(<usize as NumberBytesEndiannessExt>::from_bytes(&bytes, order), Ok(v));
        }
    }
}

#[test]
fn round_trip_isize() {
    for v in [isize::MIN, -1, 0, 1, 0x12345678, isize::MAX] {
        for order in ORDERS {
            let bytes = v.to_bytes(order);
            assert_eq!(<isize as NumberBytesEndiannessExt>::from_bytes(&bytes, order), Ok(v));
        }
    }
}

#[test]
fn encoded_length_equals_width_for_every_order() {
    for order in ORDERS {
        assert_eq!(<u8 as NumberBytesEndiannessExt>::to_bytes(0xAB, order).len(), 1);
        assert_eq!(<u16 as NumberBytesEndiannessExt>::to_bytes(0xABCD, order).len(), 2);
        assert_eq!(<u32 as NumberBytesEndiannessExt>::to_bytes(7, order).len(), 4);
        assert_eq!(<u64 as NumberBytesEndiannessExt>::to_bytes(7, order).len(), 8);
        assert_eq!(<u128 as NumberBytesEndiannessExt>::to_bytes(7, order).len(), 16);
        assert_eq!(<i8 as NumberBytesEndiannessExt>::to_bytes(-1, order).len(), 1);
        assert_eq!(<i16 as NumberBytesEndiannessExt>::to_bytes(-2, order).len(), 2);
        assert_eq!(<i32 as NumberBytesEndiannessExt>::to_bytes(-3, order).len(), 4);
        assert_eq!(<i64 as NumberBytesEndiannessExt>::to_bytes(-4, order).len(), 8);
        assert_eq!(<i128 as NumberBytesEndiannessExt>::to_bytes(-5, order).len(), 16);
    }
}

#[test]
fn round_trip_u8() {
    for v in [0u8, 1, 0x7F, 0x80, 0xFF] {
        for order in ORDERS {
            let bytes = v.to_bytes(order);
            assert_eq!(<u8 as NumberBytesEndiannessExt>::from_bytes(&bytes, order), Ok(v));
        }
    }
}

#[test]
fn round_trip_u16() {
    for v in [0u16, 1, 0x1234, u16::MAX] {
        for order in ORDERS {
            let bytes = v.to_bytes(order);
            assert_eq!(<u16 as NumberBytesEndiannessExt>::from_bytes(&bytes, order), Ok(v));
        }
    }
}

#[test]
fn round_trip_u32() {
    for v in [0u32, 1, 0x12345678, u32::MAX] {
        for order in ORDERS {
            let bytes = v.to_bytes(order);
            assert_eq!(<u32 as NumberBytesEndiannessExt>::from_bytes(&bytes, order), Ok(v));
        }
    }
}

#[test]
fn round_trip_u64() {
    for v in [0u64, 1, 0x0123456789ABCDEF, u64::MAX] {
        for order in ORDERS {
            let bytes = v.to_bytes(order);
            assert_eq!(<u64 as NumberBytesEndiannessExt>::from_bytes(&bytes, order), Ok(v));
        }
    }
}

#[test]
fn round_trip_u128() {
    for v in [0u128, 1, 0x0123456789ABCDEF_FEDCBA9876543210, u128::MAX] {
        for order in ORDERS {
            let bytes = v.to_bytes(order);
            assert_eq!(<u128 as NumberBytesEndiannessExt>::from_bytes(&bytes, order), Ok(v));
        }
    }
}

#[test]
fn round_trip_i8() {
    for v in [i8::MIN, -1, 0, 1, i8::MAX] {
        for order in ORDERS {
            let bytes = v.to_bytes(order);
            assert_eq!(<i8 as NumberBytesEndiannessExt>::from_bytes(&bytes, order), Ok(v));
        }
    }
}

#[test]
fn round_trip_i16() {
    for v in [i16::MIN, -1, 0, 1, 0x1234, i16::MAX] {
        for order in ORDERS {
            let bytes = v.to_bytes(order);
            assert_eq!(<i16 as NumberBytesEndiannessExt>::from_bytes(&bytes, order), Ok(v));
        }
    }
}

#[test]
fn round_trip_i32() {
    for v in [i32::MIN, -1, 0, 1, 0x12345678, i32::MAX] {
        for order in ORDERS {
            let bytes = v.to_bytes(order);
            assert_eq!(<i32 as NumberBytesEndiannessExt>::from_bytes(&bytes, order), Ok(v));
        }
    }
}

#[test]
fn round_trip_i64() {
    for v in [i64::MIN, -1, 0, 1, 0x0123456789ABCDEF, i64::MAX] {
        for order in ORDERS {
            let bytes = v.to_bytes(order);
            assert_eq!(<i64 as NumberBytesEndiannessExt>::from_bytes(&bytes, order), Ok(v));
        }
    }
}

#[test]
fn round_trip_i128() {
    for v in [i128::MIN, -1, 0, 1, 0x0123456789ABCDEF_FEDCBA987654321, i128::MAX] {
        for order in ORDERS {
            let bytes = v.to_bytes(order);
            assert_eq!(<i128 as NumberBytesEndiannessExt>::from_bytes(&bytes, order), Ok(v));
        }
    }
}

#[test]
fn native_order_matches_platform() {
    let value: u32 = 0x0A0B0C0D;
    let native = <u32 as NumberBytes>::to_ne_bytes(value);
    if host_is_little_endian() {
        assert_eq!(native, <u32 as NumberBytes>::to_le_bytes(value));
    } else {
        assert_eq!(native, <u32 as NumberBytes>::to_be_bytes(value));
    }
    assert_eq!(
        <u32 as NumberBytes>::from_ne_bytes(&native),
        Ok(value)
    );
}

#[test]
fn big_and_little_are_mirror_images() {
    let value: u64 = 0x0102030405060708;
    let big = <u64 as NumberBytes>::to_be_bytes(value);
    let little = <u64 as NumberBytes>::to_le_bytes(value);
    let mut reversed = big.clone();
    reversed.reverse();
    assert_eq!(reversed, little);
    assert_ne!(big, little);
}

#[test]
fn palindromic_value_encodes_alike() {
    let value: u16 = 0x4141;
    assert_eq!(
        <u16 as NumberBytes>::to_be_bytes(value),
        <u16 as NumberBytes>::to_le_bytes(value)
    );
}

#[test]
fn length_mismatch_shorter_longer_empty() {
    for order in ORDERS {
        for bytes in [&[][..], &[1u8][..], &[1, 2, 3][..], &[1, 2, 3, 4, 5][..]] {
            let decoded = <u32 as NumberBytesEndiannessExt>::from_bytes(bytes, order);
            assert_eq!(
                decoded,
                Err(FromBytesError {
                    expected: 4,
                    actual: bytes.len()
                })
            );
        }
    }
}

#[test]
fn length_mismatch_through_named_conversions() {
    let bytes = [0xFFu8; 3];
    assert_eq!(
        <u16 as NumberBytes>::from_ne_bytes(&bytes),
        Err(FromBytesError {
            expected: 2,
            actual: 3
        })
    );
    assert_eq!(
        <u16 as NumberBytes>::from_be_bytes(&bytes),
        Err(FromBytesError {
            expected: 2,
            actual: 3
        })
    );
    assert_eq!(
        <u16 as NumberBytes>::from_le_bytes(&bytes),
        Err(FromBytesError {
            expected: 2,
            actual: 3
        })
    );
}

#[test]
fn facade_matches_named_conversions() {
    let value: u64 = 0x1122334455667788;
    assert_eq!(
        value.to_bytes(NumberBytesEndianness::NativeEndian),
        <u64 as NumberBytes>::to_ne_bytes(value)
    );
    assert_eq!(
        value.to_bytes(NumberBytesEndianness::BigEndian),
        <u64 as NumberBytes>::to_be_bytes(value)
    );
    assert_eq!(
        value.to_bytes(NumberBytesEndianness::LittleEndian),
        <u64 as NumberBytes>::to_le_bytes(value)
    );
}

#[test]
fn signed_negative_uses_twos_complement() {
    assert_eq!(<i16 as NumberBytes>::to_be_bytes(-2), vec![0xFF, 0xFE]);
    assert_eq!(<i16 as NumberBytes>::to_le_bytes(-2), vec![0xFE, 0xFF]);
    assert_eq!(<i32 as NumberBytes>::to_be_bytes(-1), vec![0xFF; 4]);
    assert_eq!(
        <i32 as NumberBytes>::from_be_bytes(&[0x80, 0, 0, 0]),
        Ok(i32::MIN)
    );
}

#[test]
fn wrap_functions_agree_with_little_endian() {
    let bytes = number_bytes::wrap_to_bytes(0x12345678, 4);
    assert_eq!(bytes, vec![0x78, 0x56, 0x34, 0x12]);
    assert_eq!(number_bytes::wrap_from_bytes(&bytes, 4), Ok(0x12345678));
    assert_eq!(
        number_bytes::wrap_from_bytes(&bytes, 8),
        Err(FromBytesError {
            expected: 8,
            actual: 4
        })
    );
}
