//! Conversion of fixed-width numeric values to and from their raw byte
//! representation, under a selectable byte order (native, big-endian,
//! little-endian).
//!
//! The byte image of a value is modelled as a sequence of base-256 digits of
//! its bit pattern: least significant first for little-endian, reversed for
//! big-endian. A pointer-width integer has the width of the executing
//! platform, four or eight bytes; floating-point values can be routed
//! through the unsigned type of the same width via their bit pattern.

pub mod endianness;
mod numbers;

pub use endianness::{NumberBytesEndianness, NumberBytesEndiannessExt};

use vstd::prelude::*;

verus! {

/// The sole failure: a byte sequence offered for decoding whose length is not
/// the target type's byte width. It carries the width the type requires and
/// the length that was actually given.
#[derive(Clone, Copy, Debug, PartialEq, Eq, Structural)]
pub struct FromBytesError {
    /// The byte width of the target numeric type.
    pub expected: usize,
    /// The length of the byte sequence that was offered.
    pub actual: usize,
}

/// Result of decoding a byte sequence into a numeric value.
pub type FromBytesResult<T> = Result<T, FromBytesError>;

/// 256 raised to `w`: the number of distinct values `w` bytes can hold.
pub open spec fn pow256(w: nat) -> nat
    decreases w,
{
    if w == 0 {
        1
    } else {
        256 * pow256((w - 1) as nat)
    }
}

/// The little-endian byte image of bit pattern `n` in exactly `w` bytes:
/// the base-256 digits of `n`, least significant first. Bits of `n` beyond
/// the `w`-byte range do not appear in the image.
pub open spec fn le_bytes_of(n: nat, w: nat) -> Seq<u8>
    decreases w,
{
    if w == 0 {
        Seq::empty()
    } else {
        seq![(n % 256) as u8] + le_bytes_of(n / 256, (w - 1) as nat)
    }
}

/// The big-endian byte image of bit pattern `n` in exactly `w` bytes:
/// the little-endian image reversed, most significant byte first.
pub open spec fn be_bytes_of(n: nat, w: nat) -> Seq<u8> {
    le_bytes_of(n, w).reverse()
}

/// The bit pattern a byte sequence denotes when read as little-endian.
pub open spec fn le_value_of(s: Seq<u8>) -> nat
    decreases s.len(),
{
    if s.len() == 0 {
        0
    } else {
        (s[0] + 256 * le_value_of(s.drop_first())) as nat
    }
}

/// The bit pattern a byte sequence denotes when read as big-endian.
pub open spec fn be_value_of(s: Seq<u8>) -> nat {
    le_value_of(s.reverse())
}

/// A `w`-byte image has length `w`, whatever the value.
pub proof fn lemma_le_bytes_len(n: nat, w: nat)
    ensures
        le_bytes_of(n, w).len() == w,
    decreases w,
{
    if w > 0 {
        lemma_le_bytes_len(n / 256, (w - 1) as nat);
    }
}

/// The exact powers of 256 for the byte widths of the covered types.
pub proof fn lemma_pow256_values()
    ensures
        pow256(0) == 1,
        pow256(1) == 0x100,
        pow256(2) == 0x1_0000,
        pow256(4) == 0x1_0000_0000,
        pow256(8) == 0x1_0000_0000_0000_0000,
        pow256(16) == 0x1_0000_0000_0000_0000_0000_0000_0000_0000,
{
    assert(pow256(1) == 256 * pow256(0));
    assert(pow256(2) == 256 * pow256(1));
    assert(pow256(3) == 256 * pow256(2));
    assert(pow256(4) == 256 * pow256(3));
    assert(pow256(5) == 256 * pow256(4));
    assert(pow256(6) == 256 * pow256(5));
    assert(pow256(7) == 256 * pow256(6));
    assert(pow256(8) == 256 * pow256(7));
    assert(pow256(9) == 256 * pow256(8));
    assert(pow256(10) == 256 * pow256(9));
    assert(pow256(11) == 256 * pow256(10));
    assert(pow256(12) == 256 * pow256(11));
    assert(pow256(13) == 256 * pow256(12));
    assert(pow256(14) == 256 * pow256(13));
    assert(pow256(15) == 256 * pow256(14));
    assert(pow256(16) == 256 * pow256(15));
}

/// A power of 256 is never zero.
pub proof fn lemma_pow256_pos(w: nat)
    ensures
        pow256(w) >= 1,
    decreases w,
{
    if w > 0 {
        lemma_pow256_pos((w - 1) as nat);
        assert(256 * pow256((w - 1) as nat) >= pow256((w - 1) as nat)) by (nonlinear_arith)
            requires
                pow256((w - 1) as nat) >= 0,
        ;
    }
}

/// `pow256` grows with the width.
pub proof fn lemma_pow256_mono(w1: nat, w2: nat)
    requires
        w1 <= w2,
    ensures
        pow256(w1) <= pow256(w2),
    decreases w2,
{
    if w1 < w2 {
        lemma_pow256_mono(w1, (w2 - 1) as nat);
        assert(pow256((w2 - 1) as nat) <= 256 * pow256((w2 - 1) as nat)) by (nonlinear_arith)
            requires
                pow256((w2 - 1) as nat) >= 0,
        ;
    }
}

/// A sequence of `w` bytes denotes a value below `pow256(w)`.
pub proof fn lemma_le_value_bound(s: Seq<u8>)
    ensures
        le_value_of(s) < pow256(s.len()),
    decreases s.len(),
{
    if s.len() > 0 {
        lemma_le_value_bound(s.drop_first());
        let rest = le_value_of(s.drop_first());
        let p = pow256((s.len() - 1) as nat);
        assert(256 * rest <= 256 * (p - 1)) by (nonlinear_arith)
            requires
                rest <= p - 1,
        ;
    }
}

/// Reading a `w`-byte little-endian image back gives the encoded value,
/// provided that value fits in `w` bytes.
pub proof fn lemma_le_round_trip(n: nat, w: nat)
    requires
        n < pow256(w),
    ensures
        le_value_of(le_bytes_of(n, w)) == n,
    decreases w,
{
    if w > 0 {
        let s = le_bytes_of(n, w);
        let tail = le_bytes_of(n / 256, (w - 1) as nat);
        lemma_pow256_pos((w - 1) as nat);
        assert(n / 256 < pow256((w - 1) as nat)) by (nonlinear_arith)
            requires
                n < 256 * pow256((w - 1) as nat),
                n >= 0,
                pow256((w - 1) as nat) > 0,
        ;
        lemma_le_round_trip(n / 256, (w - 1) as nat);
        assert(s.drop_first() =~= tail);
        vstd::arithmetic::div_mod::lemma_fundamental_div_mod(n as int, 256);
    }
}

/// Encodes the low `width` bytes of `value` in little-endian order.
///
/// This is the single conversion core: every byte order and every numeric
/// width reduces to it, by reversing the image or by truncating `value`.
pub fn wrap_to_bytes(value: u128, width: usize) -> (r: Vec<u8>)
    ensures
        r@ == le_bytes_of(value as nat, width as nat),
        r@.len() == width,
{
    let mut out: Vec<u8> = Vec::new();
    let mut n: u128 = value;
    let mut i: usize = 0;
    proof {
        lemma_le_bytes_len(value as nat, width as nat);
    }
    while i < width
        invariant
            i <= width,
            out@.len() == i,
            le_bytes_of(value as nat, width as nat) == out@ + le_bytes_of(
                n as nat,
                (width - i) as nat,
            ),
        decreases width - i,
    {
        let b: u8 = (n % 256) as u8;
        proof {
            let rest = le_bytes_of(n as nat, (width - i) as nat);
            assert(rest == seq![b] + le_bytes_of(n as nat / 256, (width - i - 1) as nat));
            assert(out@ + rest =~= (out@ + seq![b]) + le_bytes_of(
                n as nat / 256,
                (width - i - 1) as nat,
            ));
            assert(out@.push(b) =~= out@ + seq![b]);
        }
        out.push(b);
        n = n / 256;
        i = i + 1;
    }
    proof {
        assert(le_bytes_of(n as nat, 0) =~= Seq::<u8>::empty());
        assert(out@ + le_bytes_of(n as nat, 0) =~= out@);
        lemma_le_bytes_len(value as nat, width as nat);
    }
    out
}

/// Reversing a byte image twice gives it back; hence the big-endian image
/// and value are the mirror of the little-endian ones.
pub proof fn lemma_reverse_involution(s: Seq<u8>)
    ensures
        s.reverse().reverse() == s,
{
    assert(s.reverse().reverse() =~= s);
}

/// Reading a `w`-byte big-endian image back, as big-endian, gives the
/// encoded value, provided that value fits in `w` bytes.
pub proof fn lemma_be_round_trip(n: nat, w: nat)
    requires
        n < pow256(w),
    ensures
        be_value_of(be_bytes_of(n, w)) == n,
{
    lemma_reverse_involution(le_bytes_of(n, w));
    lemma_le_round_trip(n, w);
}

/// The two non-native byte orders are mirror images of one another; on an
/// image that is not a palindrome they therefore disagree.
pub proof fn lemma_order_distinct(n: nat, w: nat)
    ensures
        be_bytes_of(n, w) == le_bytes_of(n, w).reverse(),
        le_bytes_of(n, w) == be_bytes_of(n, w).reverse(),
        le_bytes_of(n, w) != le_bytes_of(n, w).reverse() ==> be_bytes_of(n, w) != le_bytes_of(
            n,
            w,
        ),
{
    lemma_reverse_involution(le_bytes_of(n, w));
}

/// Every byte image of width `w` has length `w`, under either order.
pub proof fn lemma_width(n: nat, w: nat)
    ensures
        le_bytes_of(n, w).len() == w,
        be_bytes_of(n, w).len() == w,
{
    lemma_le_bytes_len(n, w);
}

/// Copies a byte slice in reverse order.
fn reverse_bytes(v: &[u8]) -> (r: Vec<u8>)
    ensures
        r@ == v@.reverse(),
{
    let mut out: Vec<u8> = Vec::new();
    let n = v.len();
    let mut i: usize = 0;
    while i < n
        invariant
            i <= n,
            n == v@.len(),
            out@.len() == i,
            forall|j: int| 0 <= j < i ==> out@[j] == v@[n - 1 - j],
        decreases n - i,
    {
        out.push(v[n - 1 - i]);
        i = i + 1;
    }
    proof {
        assert(out@ =~= v@.reverse());
    }
    out
}

/// Decodes a little-endian byte sequence into the bit pattern it denotes.
///
/// Succeeds exactly when the sequence has length `width`; any other length,
/// shorter or longer, is the length-mismatch error, which records the
/// expected width and the offered length.
pub fn wrap_from_bytes(bytes: &[u8], width: usize) -> (r: FromBytesResult<u128>)
    requires
        width <= 16,
    ensures
        match r {
            Ok(n) => bytes@.len() == width && n as nat == le_value_of(bytes@),
            Err(e) => bytes@.len() != width && e.expected == width && e.actual == bytes@.len(),
        },
{
    if bytes.len() != width {
        return Err(FromBytesError { expected: width, actual: bytes.len() });
    }
    let mut n: u128 = 0;
    let mut i: usize = width;
    while i > 0
        invariant
            i <= width,
            width <= 16,
            bytes@.len() == width,
            n as nat == le_value_of(bytes@.skip(i as int)),
            (n as nat) < pow256((width - i) as nat),
        decreases i,
    {
        let ghost prev = n as nat;
        proof {
            lemma_pow256_mono((width - i) as nat, 15);
            lemma_pow256_values();
            assert(256 * prev <= 256 * (pow256(15) - 1)) by (nonlinear_arith)
                requires
                    prev <= pow256(15) - 1,
            ;
        }
        let b = bytes[i - 1];
        n = n * 256 + (b as u128);
        i = i - 1;
        proof {
            let s = bytes@.skip(i as int);
            assert(s.len() == width - i);
            assert(s[0] == b);
            assert(s.drop_first() =~= bytes@.skip(i + 1));
            assert(n as nat == (s[0] + 256 * le_value_of(s.drop_first())) as nat);
            assert(256 * prev < 256 * pow256((width - i - 1) as nat)) by (nonlinear_arith)
                requires
                    prev < pow256((width - i - 1) as nat),
            ;
        }
    }
    proof {
        assert(bytes@.skip(0) =~= bytes@);
    }
    Ok(n)
}

/// Relies on `u16::to_ne_bytes`: the probe value 1u16 is laid out as
/// `[1, 0]` on a little-endian target and `[0, 1]` on a big-endian one,
/// so its first byte is 0 or 1 and tells the two apart.
#[verifier::external_body]
fn ne_probe_first_byte() -> (r: u8)
    ensures
        r == 0 || r == 1,
{
    u16::to_ne_bytes(1)[0]
}

/// True when the executing platform lays multi-byte values out least
/// significant byte first. Nothing is assumed about the answer: callers
/// state what holds for either outcome.
fn native_order_is_little() -> bool {
    ne_probe_first_byte() == 1
}

/// Encodes the low `width` bytes of `value` in big-endian order.
pub(crate) fn encode_be(value: u128, width: usize) -> (r: Vec<u8>)
    ensures
        r@ == be_bytes_of(value as nat, width as nat),
        r@.len() == width,
{
    let le = wrap_to_bytes(value, width);
    reverse_bytes(le.as_slice())
}

/// Encodes the low `width` bytes of `value` in the platform's own order,
/// which is one of the two fixed orders.
pub(crate) fn encode_ne(value: u128, width: usize) -> (r: Vec<u8>)
    ensures
        r@ == le_bytes_of(value as nat, width as nat) || r@ == be_bytes_of(
            value as nat,
            width as nat,
        ),
        r@.len() == width,
{
    if native_order_is_little() {
        wrap_to_bytes(value, width)
    } else {
        encode_be(value, width)
    }
}

/// Decodes a big-endian byte sequence into the bit pattern it denotes,
/// failing on any length other than `width`.
pub(crate) fn decode_be(bytes: &[u8], width: usize) -> (r: FromBytesResult<u128>)
    requires
        width <= 16,
    ensures
        match r {
            Ok(n) => bytes@.len() == width && n as nat == be_value_of(bytes@),
            Err(e) => bytes@.len() != width && e.expected == width && e.actual == bytes@.len(),
        },
{
    let rev = reverse_bytes(bytes);
    wrap_from_bytes(rev.as_slice(), width)
}

/// Decodes a byte sequence in the platform's own order, which is one of the
/// two fixed orders, failing on any length other than `width`.
pub(crate) fn decode_ne(bytes: &[u8], width: usize) -> (r: FromBytesResult<u128>)
    requires
        width <= 16,
    ensures
        match r {
            Ok(n) => bytes@.len() == width && (n as nat == le_value_of(bytes@) || n as nat
                == be_value_of(bytes@)),
            Err(e) => bytes@.len() != width && e.expected == width && e.actual == bytes@.len(),
        },
{
    if native_order_is_little() {
        wrap_from_bytes(bytes, width)
    } else {
        decode_be(bytes, width)
    }
}

/// The conversion capability: a fixed-width numeric type, its byte width,
/// and the six conversions between values and byte sequences under the
/// three byte orders.
///
/// A value is modelled by its bit pattern, a number below
/// `pow256(Self::width())`; the byte sequences are the little- and
/// big-endian images of that pattern. Encoding never fails; decoding fails
/// exactly on a byte sequence whose length is not the type's width.
pub trait NumberBytes: Sized {
    /// The byte width of the type, as a mathematical value.
    spec fn width() -> nat;

    /// The bit pattern of this value: the number its bytes spell.
    spec fn bits(self) -> nat;

    /// The covered widths run from a single byte to sixteen.
    proof fn lemma_width_bounds()
        ensures
            1 <= Self::width() <= 16,
    ;

    /// A bit pattern fits in the type's width.
    proof fn lemma_bits_in_range(self)
        ensures
            self.bits() < pow256(Self::width()),
    ;

    /// Distinct values have distinct bit patterns.
    proof fn lemma_bits_injective(a: Self, b: Self)
        requires
            a.bits() == b.bits(),
        ensures
            a == b,
    ;

    /// How many bytes a value of this type consists of.
    ///
    /// A single byte explicitly refers to 8 bits and the builtin [`u8`] type.
    fn bytes() -> (r: usize)
        ensures
            r == Self::width(),
    ;

    /// Returns the memory representation of this value as bytes in native
    /// byte order, which is one of the two fixed orders.
    ///
    /// Size of the output vector is always the value of [`Self::bytes`].
    fn to_ne_bytes(self) -> (r: Vec<u8>)
        ensures
            r@.len() == Self::width(),
            r@ == le_bytes_of(self.bits(), Self::width()) || r@ == be_bytes_of(
                self.bits(),
                Self::width(),
            ),
    ;

    /// Creates a value from its memory representation as bytes in native
    /// byte order.
    ///
    /// Returns [`FromBytesError`] if the size of the given byte-slice is
    /// incorrect; succeeds on every slice of the right size.
    fn from_ne_bytes(bytes: &[u8]) -> (r: FromBytesResult<Self>)
        ensures
            match r {
                Ok(v) => bytes@.len() == Self::width() && (v.bits() == le_value_of(bytes@)
                    || v.bits() == be_value_of(bytes@)),
                Err(e) => bytes@.len() != Self::width() && e.expected == Self::width()
                    && e.actual == bytes@.len(),
            },
    ;

    /// Returns the memory representation of this value as bytes in
    /// big-endian (network) byte order.
    ///
    /// Size of the output vector is always the value of [`Self::bytes`].
    fn to_be_bytes(self) -> (r: Vec<u8>)
        ensures
            r@.len() == Self::width(),
            r@ == be_bytes_of(self.bits(), Self::width()),
    ;

    /// Creates a value from its representation as bytes in big endian.
    ///
    /// Returns [`FromBytesError`] if the size of the given byte-slice is
    /// incorrect; succeeds on every slice of the right size.
    fn from_be_bytes(bytes: &[u8]) -> (r: FromBytesResult<Self>)
        ensures
            match r {
                Ok(v) => bytes@.len() == Self::width() && v.bits() == be_value_of(bytes@),
                Err(e) => bytes@.len() != Self::width() && e.expected == Self::width()
                    && e.actual == bytes@.len(),
            },
    ;

    /// Returns the memory representation of this value as bytes in
    /// little-endian byte order.
    ///
    /// Size of the output vector is always the value of [`Self::bytes`].
    fn to_le_bytes(self) -> (r: Vec<u8>)
        ensures
            r@.len() == Self::width(),
            r@ == le_bytes_of(self.bits(), Self::width()),
    ;

    /// Creates a value from its representation as bytes in little endian.
    ///
    /// Returns [`FromBytesError`] if the size of the given byte-slice is
    /// incorrect; succeeds on every slice of the right size.
    fn from_le_bytes(bytes: &[u8]) -> (r: FromBytesResult<Self>)
        ensures
            match r {
                Ok(v) => bytes@.len() == Self::width() && v.bits() == le_value_of(bytes@),
                Err(e) => bytes@.len() != Self::width() && e.expected == Self::width()
                    && e.actual == bytes@.len(),
            },
    ;
}

} // verus!

