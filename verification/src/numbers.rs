//! The conversion capability for the built-in fixed-width integer types.
//!
//! Every implementation follows one shape: the value's bit pattern is
//! widened into a `u128`, and the shared little-endian core does the byte
//! work; the big-endian and native paths reverse the image or pick the
//! platform's order. A signed value contributes its two's-complement
//! pattern, the unsigned reading of its bytes.

use crate::{
    decode_be, decode_ne, encode_be, encode_ne, lemma_le_value_bound, lemma_pow256_values, pow256,
    wrap_from_bytes, wrap_to_bytes, FromBytesResult, NumberBytes,
};
use vstd::prelude::*;

verus! {

impl NumberBytes for u8 {
    open spec fn width() -> nat {
        1
    }

    open spec fn bits(self) -> nat {
        self as nat
    }

    proof fn lemma_width_bounds() {
    }

    proof fn lemma_bits_in_range(self) {
        lemma_pow256_values();
    }

    proof fn lemma_bits_injective(a: Self, b: Self) {
    }

    fn bytes() -> usize {
        1
    }

    fn to_ne_bytes(self) -> Vec<u8> {
        encode_ne(self as u128, 1)
    }

    fn from_ne_bytes(bytes: &[u8]) -> FromBytesResult<Self> {
        match decode_ne(bytes, 1) {
            Ok(n) => {
                proof {
                    lemma_pow256_values();
                    lemma_le_value_bound(bytes@);
                    lemma_le_value_bound(bytes@.reverse());
                }
                Ok(n as u8)
            },
            Err(e) => Err(e),
        }
    }

    fn to_be_bytes(self) -> Vec<u8> {
        encode_be(self as u128, 1)
    }

    fn from_be_bytes(bytes: &[u8]) -> FromBytesResult<Self> {
        match decode_be(bytes, 1) {
            Ok(n) => {
                proof {
                    lemma_pow256_values();
                    lemma_le_value_bound(bytes@.reverse());
                }
                Ok(n as u8)
            },
            Err(e) => Err(e),
        }
    }

    fn to_le_bytes(self) -> Vec<u8> {
        wrap_to_bytes(self as u128, 1)
    }

    fn from_le_bytes(bytes: &[u8]) -> FromBytesResult<Self> {
        match wrap_from_bytes(bytes, 1) {
            Ok(n) => {
                proof {
                    lemma_pow256_values();
                    lemma_le_value_bound(bytes@);
                }
                Ok(n as u8)
            },
            Err(e) => Err(e),
        }
    }
}

impl NumberBytes for u16 {
    open spec fn width() -> nat {
        2
    }

    open spec fn bits(self) -> nat {
        self as nat
    }

    proof fn lemma_width_bounds() {
    }

    proof fn lemma_bits_in_range(self) {
        lemma_pow256_values();
    }

    proof fn lemma_bits_injective(a: Self, b: Self) {
    }

    fn bytes() -> usize {
        2
    }

    fn to_ne_bytes(self) -> Vec<u8> {
        encode_ne(self as u128, 2)
    }

    fn from_ne_bytes(bytes: &[u8]) -> FromBytesResult<Self> {
        match decode_ne(bytes, 2) {
            Ok(n) => {
                proof {
                    lemma_pow256_values();
                    lemma_le_value_bound(bytes@);
                    lemma_le_value_bound(bytes@.reverse());
                }
                Ok(n as u16)
            },
            Err(e) => Err(e),
        }
    }

    fn to_be_bytes(self) -> Vec<u8> {
        encode_be(self as u128, 2)
    }

    fn from_be_bytes(bytes: &[u8]) -> FromBytesResult<Self> {
        match decode_be(bytes, 2) {
            Ok(n) => {
                proof {
                    lemma_pow256_values();
                    lemma_le_value_bound(bytes@.reverse());
                }
                Ok(n as u16)
            },
            Err(e) => Err(e),
        }
    }

    fn to_le_bytes(self) -> Vec<u8> {
        wrap_to_bytes(self as u128, 2)
    }

    fn from_le_bytes(bytes: &[u8]) -> FromBytesResult<Self> {
        match wrap_from_bytes(bytes, 2) {
            Ok(n) => {
                proof {
                    lemma_pow256_values();
                    lemma_le_value_bound(bytes@);
                }
                Ok(n as u16)
            },
            Err(e) => Err(e),
        }
    }
}

impl NumberBytes for u32 {
    open spec fn width() -> nat {
        4
    }

    open spec fn bits(self) -> nat {
        self as nat
    }

    proof fn lemma_width_bounds() {
    }

    proof fn lemma_bits_in_range(self) {
        lemma_pow256_values();
    }

    proof fn lemma_bits_injective(a: Self, b: Self) {
    }

    fn bytes() -> usize {
        4
    }

    fn to_ne_bytes(self) -> Vec<u8> {
        encode_ne(self as u128, 4)
    }

    fn from_ne_bytes(bytes: &[u8]) -> FromBytesResult<Self> {
        match decode_ne(bytes, 4) {
            Ok(n) => {
                proof {
                    lemma_pow256_values();
                    lemma_le_value_bound(bytes@);
                    lemma_le_value_bound(bytes@.reverse());
                }
                Ok(n as u32)
            },
            Err(e) => Err(e),
        }
    }

    fn to_be_bytes(self) -> Vec<u8> {
        encode_be(self as u128, 4)
    }

    fn from_be_bytes(bytes: &[u8]) -> FromBytesResult<Self> {
        match decode_be(bytes, 4) {
            Ok(n) => {
                proof {
                    lemma_pow256_values();
                    lemma_le_value_bound(bytes@.reverse());
                }
                Ok(n as u32)
            },
            Err(e) => Err(e),
        }
    }

    fn to_le_bytes(self) -> Vec<u8> {
        wrap_to_bytes(self as u128, 4)
    }

    fn from_le_bytes(bytes: &[u8]) -> FromBytesResult<Self> {
        match wrap_from_bytes(bytes, 4) {
            Ok(n) => {
                proof {
                    lemma_pow256_values();
                    lemma_le_value_bound(bytes@);
                }
                Ok(n as u32)
            },
            Err(e) => Err(e),
        }
    }
}

impl NumberBytes for u64 {
    open spec fn width() -> nat {
        8
    }

    open spec fn bits(self) -> nat {
        self as nat
    }

    proof fn lemma_width_bounds() {
    }

    proof fn lemma_bits_in_range(self) {
        lemma_pow256_values();
    }

    proof fn lemma_bits_injective(a: Self, b: Self) {
    }

    fn bytes() -> usize {
        8
    }

    fn to_ne_bytes(self) -> Vec<u8> {
        encode_ne(self as u128, 8)
    }

    fn from_ne_bytes(bytes: &[u8]) -> FromBytesResult<Self> {
        match decode_ne(bytes, 8) {
            Ok(n) => {
                proof {
                    lemma_pow256_values();
                    lemma_le_value_bound(bytes@);
                    lemma_le_value_bound(bytes@.reverse());
                }
                Ok(n as u64)
            },
            Err(e) => Err(e),
        }
    }

    fn to_be_bytes(self) -> Vec<u8> {
        encode_be(self as u128, 8)
    }

    fn from_be_bytes(bytes: &[u8]) -> FromBytesResult<Self> {
        match decode_be(bytes, 8) {
            Ok(n) => {
                proof {
                    lemma_pow256_values();
                    lemma_le_value_bound(bytes@.reverse());
                }
                Ok(n as u64)
            },
            Err(e) => Err(e),
        }
    }

    fn to_le_bytes(self) -> Vec<u8> {
        wrap_to_bytes(self as u128, 8)
    }

    fn from_le_bytes(bytes: &[u8]) -> FromBytesResult<Self> {
        match wrap_from_bytes(bytes, 8) {
            Ok(n) => {
                proof {
                    lemma_pow256_values();
                    lemma_le_value_bound(bytes@);
                }
                Ok(n as u64)
            },
            Err(e) => Err(e),
        }
    }
}

impl NumberBytes for u128 {
    open spec fn width() -> nat {
        16
    }

    open spec fn bits(self) -> nat {
        self as nat
    }

    proof fn lemma_width_bounds() {
    }

    proof fn lemma_bits_in_range(self) {
        lemma_pow256_values();
    }

    proof fn lemma_bits_injective(a: Self, b: Self) {
    }

    fn bytes() -> usize {
        16
    }

    fn to_ne_bytes(self) -> Vec<u8> {
        encode_ne(self, 16)
    }

    fn from_ne_bytes(bytes: &[u8]) -> FromBytesResult<Self> {
        match decode_ne(bytes, 16) {
            Ok(n) => {
                proof {
                    lemma_pow256_values();
                    lemma_le_value_bound(bytes@);
                    lemma_le_value_bound(bytes@.reverse());
                }
                Ok(n)
            },
            Err(e) => Err(e),
        }
    }

    fn to_be_bytes(self) -> Vec<u8> {
        encode_be(self, 16)
    }

    fn from_be_bytes(bytes: &[u8]) -> FromBytesResult<Self> {
        match decode_be(bytes, 16) {
            Ok(n) => {
                proof {
                    lemma_pow256_values();
                    lemma_le_value_bound(bytes@.reverse());
                }
                Ok(n)
            },
            Err(e) => Err(e),
        }
    }

    fn to_le_bytes(self) -> Vec<u8> {
        wrap_to_bytes(self, 16)
    }

    fn from_le_bytes(bytes: &[u8]) -> FromBytesResult<Self> {
        match wrap_from_bytes(bytes, 16) {
            Ok(n) => {
                proof {
                    lemma_pow256_values();
                    lemma_le_value_bound(bytes@);
                }
                Ok(n)
            },
            Err(e) => Err(e),
        }
    }
}

impl NumberBytes for i8 {
    open spec fn width() -> nat {
        1
    }

    open spec fn bits(self) -> nat {
        (self as u8) as nat
    }

    proof fn lemma_width_bounds() {
    }

    proof fn lemma_bits_in_range(self) {
        lemma_pow256_values();
    }

    proof fn lemma_bits_injective(a: Self, b: Self) {
        assert((a as u8) as i8 == a) by (bit_vector);
        assert((b as u8) as i8 == b) by (bit_vector);
    }

    fn bytes() -> usize {
        1
    }

    fn to_ne_bytes(self) -> Vec<u8> {
        let u: u8 = #[verifier::truncate] (self as u8);
        encode_ne(u as u128, 1)
    }

    fn from_ne_bytes(bytes: &[u8]) -> FromBytesResult<Self> {
        match decode_ne(bytes, 1) {
            Ok(n) => {
                proof {
                    lemma_pow256_values();
                    lemma_le_value_bound(bytes@);
                    lemma_le_value_bound(bytes@.reverse());
                }
                let u: u8 = n as u8;
                let v: i8 = #[verifier::truncate] (u as i8);
                proof {
                    assert((u as i8) as u8 == u) by (bit_vector);
                }
                Ok(v)
            },
            Err(e) => Err(e),
        }
    }

    fn to_be_bytes(self) -> Vec<u8> {
        let u: u8 = #[verifier::truncate] (self as u8);
        encode_be(u as u128, 1)
    }

    fn from_be_bytes(bytes: &[u8]) -> FromBytesResult<Self> {
        match decode_be(bytes, 1) {
            Ok(n) => {
                proof {
                    lemma_pow256_values();
                    lemma_le_value_bound(bytes@.reverse());
                }
                let u: u8 = n as u8;
                let v: i8 = #[verifier::truncate] (u as i8);
                proof {
                    assert((u as i8) as u8 == u) by (bit_vector);
                }
                Ok(v)
            },
            Err(e) => Err(e),
        }
    }

    fn to_le_bytes(self) -> Vec<u8> {
        let u: u8 = #[verifier::truncate] (self as u8);
        wrap_to_bytes(u as u128, 1)
    }

    fn from_le_bytes(bytes: &[u8]) -> FromBytesResult<Self> {
        match wrap_from_bytes(bytes, 1) {
            Ok(n) => {
                proof {
                    lemma_pow256_values();
                    lemma_le_value_bound(bytes@);
                }
                let u: u8 = n as u8;
                let v: i8 = #[verifier::truncate] (u as i8);
                proof {
                    assert((u as i8) as u8 == u) by (bit_vector);
                }
                Ok(v)
            },
            Err(e) => Err(e),
        }
    }
}

impl NumberBytes for i16 {
    open spec fn width() -> nat {
        2
    }

    open spec fn bits(self) -> nat {
        (self as u16) as nat
    }

    proof fn lemma_width_bounds() {
    }

    proof fn lemma_bits_in_range(self) {
        lemma_pow256_values();
    }

    proof fn lemma_bits_injective(a: Self, b: Self) {
        assert((a as u16) as i16 == a) by (bit_vector);
        assert((b as u16) as i16 == b) by (bit_vector);
    }

    fn bytes() -> usize {
        2
    }

    fn to_ne_bytes(self) -> Vec<u8> {
        let u: u16 = #[verifier::truncate] (self as u16);
        encode_ne(u as u128, 2)
    }

    fn from_ne_bytes(bytes: &[u8]) -> FromBytesResult<Self> {
        match decode_ne(bytes, 2) {
            Ok(n) => {
                proof {
                    lemma_pow256_values();
                    lemma_le_value_bound(bytes@);
                    lemma_le_value_bound(bytes@.reverse());
                }
                let u: u16 = n as u16;
                let v: i16 = #[verifier::truncate] (u as i16);
                proof {
                    assert((u as i16) as u16 == u) by (bit_vector);
                }
                Ok(v)
            },
            Err(e) => Err(e),
        }
    }

    fn to_be_bytes(self) -> Vec<u8> {
        let u: u16 = #[verifier::truncate] (self as u16);
        encode_be(u as u128, 2)
    }

    fn from_be_bytes(bytes: &[u8]) -> FromBytesResult<Self> {
        match decode_be(bytes, 2) {
            Ok(n) => {
                proof {
                    lemma_pow256_values();
                    lemma_le_value_bound(bytes@.reverse());
                }
                let u: u16 = n as u16;
                let v: i16 = #[verifier::truncate] (u as i16);
                proof {
                    assert((u as i16) as u16 == u) by (bit_vector);
                }
                Ok(v)
            },
            Err(e) => Err(e),
        }
    }

    fn to_le_bytes(self) -> Vec<u8> {
        let u: u16 = #[verifier::truncate] (self as u16);
        wrap_to_bytes(u as u128, 2)
    }

    fn from_le_bytes(bytes: &[u8]) -> FromBytesResult<Self> {
        match wrap_from_bytes(bytes, 2) {
            Ok(n) => {
                proof {
                    lemma_pow256_values();
                    lemma_le_value_bound(bytes@);
                }
                let u: u16 = n as u16;
                let v: i16 = #[verifier::truncate] (u as i16);
                proof {
                    assert((u as i16) as u16 == u) by (bit_vector);
                }
                Ok(v)
            },
            Err(e) => Err(e),
        }
    }
}

impl NumberBytes for i32 {
    open spec fn width() -> nat {
        4
    }

    open spec fn bits(self) -> nat {
        (self as u32) as nat
    }

    proof fn lemma_width_bounds() {
    }

    proof fn lemma_bits_in_range(self) {
        lemma_pow256_values();
    }

    proof fn lemma_bits_injective(a: Self, b: Self) {
        assert((a as u32) as i32 == a) by (bit_vector);
        assert((b as u32) as i32 == b) by (bit_vector);
    }

    fn bytes() -> usize {
        4
    }

    fn to_ne_bytes(self) -> Vec<u8> {
        let u: u32 = #[verifier::truncate] (self as u32);
        encode_ne(u as u128, 4)
    }

    fn from_ne_bytes(bytes: &[u8]) -> FromBytesResult<Self> {
        match decode_ne(bytes, 4) {
            Ok(n) => {
                proof {
                    lemma_pow256_values();
                    lemma_le_value_bound(bytes@);
                    lemma_le_value_bound(bytes@.reverse());
                }
                let u: u32 = n as u32;
                let v: i32 = #[verifier::truncate] (u as i32);
                proof {
                    assert((u as i32) as u32 == u) by (bit_vector);
                }
                Ok(v)
            },
            Err(e) => Err(e),
        }
    }

    fn to_be_bytes(self) -> Vec<u8> {
        let u: u32 = #[verifier::truncate] (self as u32);
        encode_be(u as u128, 4)
    }

    fn from_be_bytes(bytes: &[u8]) -> FromBytesResult<Self> {
        match decode_be(bytes, 4) {
            Ok(n) => {
                proof {
                    lemma_pow256_values();
                    lemma_le_value_bound(bytes@.reverse());
                }
                let u: u32 = n as u32;
                let v: i32 = #[verifier::truncate] (u as i32);
                proof {
                    assert((u as i32) as u32 == u) by (bit_vector);
                }
                Ok(v)
            },
            Err(e) => Err(e),
        }
    }

    fn to_le_bytes(self) -> Vec<u8> {
        let u: u32 = #[verifier::truncate] (self as u32);
        wrap_to_bytes(u as u128, 4)
    }

    fn from_le_bytes(bytes: &[u8]) -> FromBytesResult<Self> {
        match wrap_from_bytes(bytes, 4) {
            Ok(n) => {
                proof {
                    lemma_pow256_values();
                    lemma_le_value_bound(bytes@);
                }
                let u: u32 = n as u32;
                let v: i32 = #[verifier::truncate] (u as i32);
                proof {
                    assert((u as i32) as u32 == u) by (bit_vector);
                }
                Ok(v)
            },
            Err(e) => Err(e),
        }
    }
}

impl NumberBytes for i64 {
    open spec fn width() -> nat {
        8
    }

    open spec fn bits(self) -> nat {
        (self as u64) as nat
    }

    proof fn lemma_width_bounds() {
    }

    proof fn lemma_bits_in_range(self) {
        lemma_pow256_values();
    }

    proof fn lemma_bits_injective(a: Self, b: Self) {
        assert((a as u64) as i64 == a) by (bit_vector);
        assert((b as u64) as i64 == b) by (bit_vector);
    }

    fn bytes() -> usize {
        8
    }

    fn to_ne_bytes(self) -> Vec<u8> {
        let u: u64 = #[verifier::truncate] (self as u64);
        encode_ne(u as u128, 8)
    }

    fn from_ne_bytes(bytes: &[u8]) -> FromBytesResult<Self> {
        match decode_ne(bytes, 8) {
            Ok(n) => {
                proof {
                    lemma_pow256_values();
                    lemma_le_value_bound(bytes@);
                    lemma_le_value_bound(bytes@.reverse());
                }
                let u: u64 = n as u64;
                let v: i64 = #[verifier::truncate] (u as i64);
                proof {
                    assert((u as i64) as u64 == u) by (bit_vector);
                }
                Ok(v)
            },
            Err(e) => Err(e),
        }
    }

    fn to_be_bytes(self) -> Vec<u8> {
        let u: u64 = #[verifier::truncate] (self as u64);
        encode_be(u as u128, 8)
    }

    fn from_be_bytes(bytes: &[u8]) -> FromBytesResult<Self> {
        match decode_be(bytes, 8) {
            Ok(n) => {
                proof {
                    lemma_pow256_values();
                    lemma_le_value_bound(bytes@.reverse());
                }
                let u: u64 = n as u64;
                let v: i64 = #[verifier::truncate] (u as i64);
                proof {
                    assert((u as i64) as u64 == u) by (bit_vector);
                }
                Ok(v)
            },
            Err(e) => Err(e),
        }
    }

    fn to_le_bytes(self) -> Vec<u8> {
        let u: u64 = #[verifier::truncate] (self as u64);
        wrap_to_bytes(u as u128, 8)
    }

    fn from_le_bytes(bytes: &[u8]) -> FromBytesResult<Self> {
        match wrap_from_bytes(bytes, 8) {
            Ok(n) => {
                proof {
                    lemma_pow256_values();
                    lemma_le_value_bound(bytes@);
                }
                let u: u64 = n as u64;
                let v: i64 = #[verifier::truncate] (u as i64);
                proof {
                    assert((u as i64) as u64 == u) by (bit_vector);
                }
                Ok(v)
            },
            Err(e) => Err(e),
        }
    }
}

impl NumberBytes for i128 {
    open spec fn width() -> nat {
        16
    }

    open spec fn bits(self) -> nat {
        (self as u128) as nat
    }

    proof fn lemma_width_bounds() {
    }

    proof fn lemma_bits_in_range(self) {
        lemma_pow256_values();
    }

    proof fn lemma_bits_injective(a: Self, b: Self) {
        assert((a as u128) as i128 == a) by (bit_vector);
        assert((b as u128) as i128 == b) by (bit_vector);
    }

    fn bytes() -> usize {
        16
    }

    fn to_ne_bytes(self) -> Vec<u8> {
        let u: u128 = #[verifier::truncate] (self as u128);
        encode_ne(u, 16)
    }

    fn from_ne_bytes(bytes: &[u8]) -> FromBytesResult<Self> {
        match decode_ne(bytes, 16) {
            Ok(n) => {
                proof {
                    lemma_pow256_values();
                    lemma_le_value_bound(bytes@);
                    lemma_le_value_bound(bytes@.reverse());
                }
                let v: i128 = #[verifier::truncate] (n as i128);
                proof {
                    assert((n as i128) as u128 == n) by (bit_vector);
                }
                Ok(v)
            },
            Err(e) => Err(e),
        }
    }

    fn to_be_bytes(self) -> Vec<u8> {
        let u: u128 = #[verifier::truncate] (self as u128);
        encode_be(u, 16)
    }

    fn from_be_bytes(bytes: &[u8]) -> FromBytesResult<Self> {
        match decode_be(bytes, 16) {
            Ok(n) => {
                proof {
                    lemma_pow256_values();
                    lemma_le_value_bound(bytes@.reverse());
                }
                let v: i128 = #[verifier::truncate] (n as i128);
                proof {
                    assert((n as i128) as u128 == n) by (bit_vector);
                }
                Ok(v)
            },
            Err(e) => Err(e),
        }
    }

    fn to_le_bytes(self) -> Vec<u8> {
        let u: u128 = #[verifier::truncate] (self as u128);
        wrap_to_bytes(u, 16)
    }

    fn from_le_bytes(bytes: &[u8]) -> FromBytesResult<Self> {
        match wrap_from_bytes(bytes, 16) {
            Ok(n) => {
                proof {
                    lemma_pow256_values();
                    lemma_le_value_bound(bytes@);
                }
                let v: i128 = #[verifier::truncate] (n as i128);
                proof {
                    assert((n as i128) as u128 == n) by (bit_vector);
                }
                Ok(v)
            },
            Err(e) => Err(e),
        }
    }
}

/// The two's-complement bit pattern of a pointer-width signed value, at the
/// platform's pointer width.
pub open spec fn isize_bits(v: isize) -> nat {
    if v >= 0 {
        v as nat
    } else {
        (v + pow256((usize::BITS / 8) as nat)) as nat
    }
}

/// Widens a pointer-width signed value to its two's-complement pattern.
fn isize_to_pattern(v: isize) -> (r: u128)
    ensures
        r as nat == isize_bits(v),
{
    proof {
        lemma_pow256_values();
    }
    if v >= 0 {
        v as u128
    } else if usize::BITS == 32 {
        ((v as i128) + 0x1_0000_0000i128) as u128
    } else {
        ((v as i128) + 0x1_0000_0000_0000_0000i128) as u128
    }
}

/// Reads a pointer-width two's-complement pattern back as a signed value.
fn pattern_to_isize(n: u128) -> (r: isize)
    requires
        (n as nat) < pow256((usize::BITS / 8) as nat),
    ensures
        isize_bits(r) == n as nat,
{
    proof {
        lemma_pow256_values();
    }
    if usize::BITS == 32 {
        if n < 0x8000_0000u128 {
            n as isize
        } else {
            ((n as i128) - 0x1_0000_0000i128) as isize
        }
    } else {
        if n < 0x8000_0000_0000_0000u128 {
            n as isize
        } else {
            ((n as i128) - 0x1_0000_0000_0000_0000i128) as isize
        }
    }
}

impl NumberBytes for usize {
    open spec fn width() -> nat {
        (usize::BITS / 8) as nat
    }

    open spec fn bits(self) -> nat {
        self as nat
    }

    proof fn lemma_width_bounds() {
    }

    proof fn lemma_bits_in_range(self) {
        lemma_pow256_values();
    }

    proof fn lemma_bits_injective(a: Self, b: Self) {
    }

    fn bytes() -> usize {
        (usize::BITS / 8) as usize
    }

    fn to_ne_bytes(self) -> Vec<u8> {
        encode_ne(self as u128, (usize::BITS / 8) as usize)
    }

    fn from_ne_bytes(bytes: &[u8]) -> FromBytesResult<Self> {
        match decode_ne(bytes, (usize::BITS / 8) as usize) {
            Ok(n) => {
                proof {
                    lemma_pow256_values();
                    lemma_le_value_bound(bytes@);
                    lemma_le_value_bound(bytes@.reverse());
                }
                Ok(n as usize)
            },
            Err(e) => Err(e),
        }
    }

    fn to_be_bytes(self) -> Vec<u8> {
        encode_be(self as u128, (usize::BITS / 8) as usize)
    }

    fn from_be_bytes(bytes: &[u8]) -> FromBytesResult<Self> {
        match decode_be(bytes, (usize::BITS / 8) as usize) {
            Ok(n) => {
                proof {
                    lemma_pow256_values();
                    lemma_le_value_bound(bytes@.reverse());
                }
                Ok(n as usize)
            },
            Err(e) => Err(e),
        }
    }

    fn to_le_bytes(self) -> Vec<u8> {
        wrap_to_bytes(self as u128, (usize::BITS / 8) as usize)
    }

    fn from_le_bytes(bytes: &[u8]) -> FromBytesResult<Self> {
        match wrap_from_bytes(bytes, (usize::BITS / 8) as usize) {
            Ok(n) => {
                proof {
                    lemma_pow256_values();
                    lemma_le_value_bound(bytes@);
                }
                Ok(n as usize)
            },
            Err(e) => Err(e),
        }
    }
}

impl NumberBytes for isize {
    open spec fn width() -> nat {
        (usize::BITS / 8) as nat
    }

    open spec fn bits(self) -> nat {
        isize_bits(self)
    }

    proof fn lemma_width_bounds() {
    }

    proof fn lemma_bits_in_range(self) {
        lemma_pow256_values();
    }

    proof fn lemma_bits_injective(a: Self, b: Self) {
        lemma_pow256_values();
    }

    fn bytes() -> usize {
        (usize::BITS / 8) as usize
    }

    fn to_ne_bytes(self) -> Vec<u8> {
        let u = isize_to_pattern(self);
        encode_ne(u, (usize::BITS / 8) as usize)
    }

    fn from_ne_bytes(bytes: &[u8]) -> FromBytesResult<Self> {
        match decode_ne(bytes, (usize::BITS / 8) as usize) {
            Ok(n) => {
                proof {
                    lemma_pow256_values();
                    lemma_le_value_bound(bytes@);
                    lemma_le_value_bound(bytes@.reverse());
                }
                Ok(pattern_to_isize(n))
            },
            Err(e) => Err(e),
        }
    }

    fn to_be_bytes(self) -> Vec<u8> {
        let u = isize_to_pattern(self);
        encode_be(u, (usize::BITS / 8) as usize)
    }

    fn from_be_bytes(bytes: &[u8]) -> FromBytesResult<Self> {
        match decode_be(bytes, (usize::BITS / 8) as usize) {
            Ok(n) => {
                proof {
                    lemma_pow256_values();
                    lemma_le_value_bound(bytes@.reverse());
                }
                Ok(pattern_to_isize(n))
            },
            Err(e) => Err(e),
        }
    }

    fn to_le_bytes(self) -> Vec<u8> {
        let u = isize_to_pattern(self);
        wrap_to_bytes(u, (usize::BITS / 8) as usize)
    }

    fn from_le_bytes(bytes: &[u8]) -> FromBytesResult<Self> {
        match wrap_from_bytes(bytes, (usize::BITS / 8) as usize) {
            Ok(n) => {
                proof {
                    lemma_pow256_values();
                    lemma_le_value_bound(bytes@);
                }
                Ok(pattern_to_isize(n))
            },
            Err(e) => Err(e),
        }
    }
}

} // verus!
