//! Runtime selection of byte order: a closed three-valued tag and two
//! conversions that dispatch on it, so that callers can pick the order
//! dynamically instead of naming one of the fixed conversions.

use crate::{
    be_bytes_of, be_value_of, le_bytes_of, le_value_of, lemma_be_round_trip, lemma_le_round_trip,
    FromBytesResult, NumberBytes,
};
use vstd::prelude::*;

verus! {

/// The byte orders a caller can select at runtime. The enumeration is
/// closed: no fourth order is representable.
#[derive(Clone, Copy, Debug, PartialEq, Eq, Structural)]
pub enum NumberBytesEndianness {
    /// Whatever order the executing platform uses.
    NativeEndian,
    /// Most significant byte first.
    BigEndian,
    /// Least significant byte first.
    LittleEndian,
}

/// Conversion under a byte order chosen as a runtime value: each call
/// dispatches to the matching [`NumberBytes`] operation for the given tag.
pub trait NumberBytesEndiannessExt: NumberBytes {
    /// Decodes `bytes` under the given byte order.
    ///
    /// Returns [`crate::FromBytesError`] exactly when the slice's length is
    /// not the type's byte width, whatever the order.
    fn from_bytes(bytes: &[u8], endianness: NumberBytesEndianness) -> (r: FromBytesResult<Self>)
        ensures
            match r {
                Ok(v) => bytes@.len() == Self::width() && (endianness
                    == NumberBytesEndianness::BigEndian ==> v.bits() == be_value_of(bytes@)) && (
                endianness == NumberBytesEndianness::LittleEndian ==> v.bits() == le_value_of(
                    bytes@,
                )) && (v.bits() == le_value_of(bytes@) || v.bits() == be_value_of(bytes@)),
                Err(e) => bytes@.len() != Self::width() && e.expected == Self::width() && e.actual
                    == bytes@.len(),
            },
    ;

    /// Encodes this value under the given byte order. Never fails; the
    /// result's length is always the type's byte width.
    fn to_bytes(self, endianness: NumberBytesEndianness) -> (r: Vec<u8>)
        ensures
            r@.len() == Self::width(),
            endianness == NumberBytesEndianness::BigEndian ==> r@ == be_bytes_of(
                self.bits(),
                Self::width(),
            ),
            endianness == NumberBytesEndianness::LittleEndian ==> r@ == le_bytes_of(
                self.bits(),
                Self::width(),
            ),
            r@ == le_bytes_of(self.bits(), Self::width()) || r@ == be_bytes_of(
                self.bits(),
                Self::width(),
            ),
    ;
}

impl<T: NumberBytes> NumberBytesEndiannessExt for T {
    fn from_bytes(bytes: &[u8], endianness: NumberBytesEndianness) -> FromBytesResult<Self> {
        match endianness {
            NumberBytesEndianness::NativeEndian => Self::from_ne_bytes(bytes),
            NumberBytesEndianness::BigEndian => Self::from_be_bytes(bytes),
            NumberBytesEndianness::LittleEndian => Self::from_le_bytes(bytes),
        }
    }

    fn to_bytes(self, endianness: NumberBytesEndianness) -> Vec<u8> {
        match endianness {
            NumberBytesEndianness::NativeEndian => Self::to_ne_bytes(self),
            NumberBytesEndianness::BigEndian => Self::to_be_bytes(self),
            NumberBytesEndianness::LittleEndian => Self::to_le_bytes(self),
        }
    }
}

/// Round trip: a value encoded under an explicitly chosen byte order and
/// decoded under the same order is the original value, bit for bit. Here
/// `v` is the encoded value and `u` any value whose bit pattern reads back
/// from `v`'s byte image under the same order, as the contracts of
/// [`NumberBytesEndiannessExt::to_bytes`] and
/// [`NumberBytesEndiannessExt::from_bytes`] describe them. The native tag
/// is left out: which fixed order it denotes is the platform's affair, not
/// a consequence of these contracts.
pub proof fn lemma_round_trip<T: NumberBytes>(v: T, u: T, endianness: NumberBytesEndianness)
    requires
        endianness != NumberBytesEndianness::NativeEndian,
        endianness == NumberBytesEndianness::BigEndian ==> u.bits() == be_value_of(
            be_bytes_of(v.bits(), T::width()),
        ),
        endianness == NumberBytesEndianness::LittleEndian ==> u.bits() == le_value_of(
            le_bytes_of(v.bits(), T::width()),
        ),
    ensures
        u == v,
{
    T::lemma_bits_in_range(v);
    if endianness == NumberBytesEndianness::BigEndian {
        lemma_be_round_trip(v.bits(), T::width());
    } else {
        lemma_le_round_trip(v.bits(), T::width());
    }
    T::lemma_bits_injective(u, v);
}

} // verus!
