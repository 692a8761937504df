//! Specification of the PTP wire format: little-endian integer encodings and
//! the corresponding positional decoders over byte sequences.
//!
//! Every multi-byte integer on the PTP wire is little-endian.  The `encNN`
//! functions give the byte sequence of a value; the `decNN` functions decode
//! at a position in a buffer and return the value together with the position
//! just past it, or `None` when the buffer is too short.

use vstd::prelude::*;

use crate::utf16::lemma_utf16_empty;
use crate::utf16::lemma_utf16_round_trip;
use crate::utf16::utf16;
use crate::utf16::utf16_to_chars;

verus! {

/// Little-endian bytes of a `u16`.
pub open spec fn enc16(v: u16) -> Seq<u8> {
    seq![(v % 0x100) as u8, (v / 0x100) as u8]
}

/// Little-endian bytes of a `u32`.
pub open spec fn enc32(v: u32) -> Seq<u8> {
    seq![
        (v % 0x100) as u8,
        ((v / 0x100) % 0x100) as u8,
        ((v / 0x10000) % 0x100) as u8,
        ((v / 0x1000000) % 0x100) as u8,
    ]
}

/// Little-endian bytes of a `u64`.
pub open spec fn enc64(v: u64) -> Seq<u8> {
    seq![
        (v % 0x100) as u8,
        ((v / 0x100) % 0x100) as u8,
        ((v / 0x10000) % 0x100) as u8,
        ((v / 0x1000000) % 0x100) as u8,
        ((v / 0x100000000) % 0x100) as u8,
        ((v / 0x10000000000) % 0x100) as u8,
        ((v / 0x1000000000000) % 0x100) as u8,
        ((v / 0x100000000000000) % 0x100) as u8,
    ]
}

/// Bytes of an `i16`, encoded as its two's-complement `u16`.
pub open spec fn enc16i(v: i16) -> Seq<u8> {
    enc16(v as u16)
}

/// Bytes of an `i32`, encoded as its two's-complement `u32`.
pub open spec fn enc32i(v: i32) -> Seq<u8> {
    enc32(v as u32)
}

/// Bytes of an `i64`, encoded as its two's-complement `u64`.
pub open spec fn enc64i(v: i64) -> Seq<u8> {
    enc64(v as u64)
}

/// Bytes of a 128-bit value held as a `(lo, hi)` pair of `u64`s: the low
/// half is serialized first.
pub open spec fn enc128(v: (u64, u64)) -> Seq<u8> {
    enc64(v.0) + enc64(v.1)
}

/// The `u16` whose little-endian bytes start at `i` (meaningful when
/// `i + 2 <= b.len()`).
pub open spec fn u16_at(b: Seq<u8>, i: int) -> u16 {
    (b[i] + b[i + 1] * 0x100) as u16
}

/// The `u32` whose little-endian bytes start at `i`.
pub open spec fn u32_at(b: Seq<u8>, i: int) -> u32 {
    (b[i] + b[i + 1] * 0x100 + b[i + 2] * 0x10000 + b[i + 3] * 0x1000000) as u32
}

/// The `u64` whose little-endian bytes start at `i`.
pub open spec fn u64_at(b: Seq<u8>, i: int) -> u64 {
    (b[i] + b[i + 1] * 0x100 + b[i + 2] * 0x10000 + b[i + 3] * 0x1000000
        + b[i + 4] * 0x100000000 + b[i + 5] * 0x10000000000 + b[i + 6] * 0x1000000000000
        + b[i + 7] * 0x100000000000000) as u64
}

/// Decode a `u8` at position `i`.
pub open spec fn dec8(b: Seq<u8>, i: int) -> Option<(u8, int)> {
    if 0 <= i && i + 1 <= b.len() {
        Some((b[i], i + 1))
    } else {
        None
    }
}

/// Decode an `i8` at position `i`.
pub open spec fn dec8i(b: Seq<u8>, i: int) -> Option<(i8, int)> {
    if 0 <= i && i + 1 <= b.len() {
        Some((b[i] as i8, i + 1))
    } else {
        None
    }
}

/// Decode a little-endian `u16` at position `i`.
pub open spec fn dec16(b: Seq<u8>, i: int) -> Option<(u16, int)> {
    if 0 <= i && i + 2 <= b.len() {
        Some((u16_at(b, i), i + 2))
    } else {
        None
    }
}

/// Decode a little-endian `i16` at position `i`.
pub open spec fn dec16i(b: Seq<u8>, i: int) -> Option<(i16, int)> {
    if 0 <= i && i + 2 <= b.len() {
        Some((u16_at(b, i) as i16, i + 2))
    } else {
        None
    }
}

/// Decode a little-endian `u32` at position `i`.
pub open spec fn dec32(b: Seq<u8>, i: int) -> Option<(u32, int)> {
    if 0 <= i && i + 4 <= b.len() {
        Some((u32_at(b, i), i + 4))
    } else {
        None
    }
}

/// Decode a little-endian `i32` at position `i`.
pub open spec fn dec32i(b: Seq<u8>, i: int) -> Option<(i32, int)> {
    if 0 <= i && i + 4 <= b.len() {
        Some((u32_at(b, i) as i32, i + 4))
    } else {
        None
    }
}

/// Decode a little-endian `u64` at position `i`.
pub open spec fn dec64(b: Seq<u8>, i: int) -> Option<(u64, int)> {
    if 0 <= i && i + 8 <= b.len() {
        Some((u64_at(b, i), i + 8))
    } else {
        None
    }
}

/// Decode a little-endian `i64` at position `i`.
pub open spec fn dec64i(b: Seq<u8>, i: int) -> Option<(i64, int)> {
    if 0 <= i && i + 8 <= b.len() {
        Some((u64_at(b, i) as i64, i + 8))
    } else {
        None
    }
}

/// Decode a 128-bit `(lo, hi)` pair at position `i`: low half first.
pub open spec fn dec128(b: Seq<u8>, i: int) -> Option<((u64, u64), int)> {
    if 0 <= i && i + 16 <= b.len() {
        Some(((u64_at(b, i), u64_at(b, i + 8)), i + 16))
    } else {
        None
    }
}

/// The bytes of a sequence of values, each encoded by `f`, concatenated in
/// order.
pub open spec fn enc_seq<T>(s: Seq<T>, f: spec_fn(T) -> Seq<u8>) -> Seq<u8> {
    s.flat_map(f)
}

/// A PTP length-prefixed vector: a `u32` element count followed by the
/// elements in their own encoding.
pub open spec fn enc_vec<T>(s: Seq<T>, f: spec_fn(T) -> Seq<u8>) -> Seq<u8>
    recommends
        s.len() <= u32::MAX,
{
    enc32(s.len() as u32) + enc_seq(s, f)
}

/// Decode exactly `n` consecutive values with the element decoder `f`.
pub open spec fn dec_n<T>(
    b: Seq<u8>,
    i: int,
    n: nat,
    f: spec_fn(Seq<u8>, int) -> Option<(T, int)>,
) -> Option<(Seq<T>, int)>
    decreases n,
{
    if n == 0 {
        Some((Seq::<T>::empty(), i))
    } else {
        match f(b, i) {
            None => None,
            Some((v, j)) => match dec_n(b, j, (n - 1) as nat, f) {
                None => None,
                Some((s, k)) => Some((seq![v] + s, k)),
            },
        }
    }
}

/// Decode a PTP length-prefixed vector: a `u32` count, then that many
/// elements decoded by `f`.
pub open spec fn dec_vec<T>(
    b: Seq<u8>,
    i: int,
    f: spec_fn(Seq<u8>, int) -> Option<(T, int)>,
) -> Option<(Seq<T>, int)> {
    match dec32(b, i) {
        None => None,
        Some((n, j)) => dec_n(b, j, n as nat, f),
    }
}

/// The element decoder for this width, as a first-class function.
pub open spec fn dec8f() -> spec_fn(Seq<u8>, int) -> Option<(u8, int)> {
    |b: Seq<u8>, i: int| dec8(b, i)
}

/// The element decoder for this width, as a first-class function.
pub open spec fn dec8if() -> spec_fn(Seq<u8>, int) -> Option<(i8, int)> {
    |b: Seq<u8>, i: int| dec8i(b, i)
}

/// The element decoder for this width, as a first-class function.
pub open spec fn dec16f() -> spec_fn(Seq<u8>, int) -> Option<(u16, int)> {
    |b: Seq<u8>, i: int| dec16(b, i)
}

/// The element decoder for this width, as a first-class function.
pub open spec fn dec16if() -> spec_fn(Seq<u8>, int) -> Option<(i16, int)> {
    |b: Seq<u8>, i: int| dec16i(b, i)
}

/// The element decoder for this width, as a first-class function.
pub open spec fn dec32f() -> spec_fn(Seq<u8>, int) -> Option<(u32, int)> {
    |b: Seq<u8>, i: int| dec32(b, i)
}

/// The element decoder for this width, as a first-class function.
pub open spec fn dec32if() -> spec_fn(Seq<u8>, int) -> Option<(i32, int)> {
    |b: Seq<u8>, i: int| dec32i(b, i)
}

/// The element decoder for this width, as a first-class function.
pub open spec fn dec64f() -> spec_fn(Seq<u8>, int) -> Option<(u64, int)> {
    |b: Seq<u8>, i: int| dec64(b, i)
}

/// The element decoder for this width, as a first-class function.
pub open spec fn dec64if() -> spec_fn(Seq<u8>, int) -> Option<(i64, int)> {
    |b: Seq<u8>, i: int| dec64i(b, i)
}

/// The element decoder for this width, as a first-class function.
pub open spec fn dec128f() -> spec_fn(Seq<u8>, int) -> Option<((u64, u64), int)> {
    |b: Seq<u8>, i: int| dec128(b, i)
}

/// The encoding of one `u8` element, as a first-class function.
pub open spec fn enc_u8f() -> spec_fn(u8) -> Seq<u8> {
    |v: u8| seq![v]
}

/// Decode a PTP length-prefixed vector of `u8` elements.
pub open spec fn dec_vec_u8(b: Seq<u8>, i: int) -> Option<(Seq<u8>, int)> {
    dec_vec(b, i, dec8f())
}

/// Encode a PTP length-prefixed vector of `u8` elements.
pub open spec fn enc_vec_u8(s: Seq<u8>) -> Seq<u8>
    recommends
        s.len() <= u32::MAX,
{
    enc_vec(s, enc_u8f())
}

/// The encoding of one `i8` element, as a first-class function.
pub open spec fn enc_i8f() -> spec_fn(i8) -> Seq<u8> {
    |v: i8| seq![v as u8]
}

/// Decode a PTP length-prefixed vector of `i8` elements.
pub open spec fn dec_vec_i8(b: Seq<u8>, i: int) -> Option<(Seq<i8>, int)> {
    dec_vec(b, i, dec8if())
}

/// Encode a PTP length-prefixed vector of `i8` elements.
pub open spec fn enc_vec_i8(s: Seq<i8>) -> Seq<u8>
    recommends
        s.len() <= u32::MAX,
{
    enc_vec(s, enc_i8f())
}

/// The encoding of one `u16` element, as a first-class function.
pub open spec fn enc_u16f() -> spec_fn(u16) -> Seq<u8> {
    |v: u16| enc16(v)
}

/// Decode a PTP length-prefixed vector of `u16` elements.
pub open spec fn dec_vec_u16(b: Seq<u8>, i: int) -> Option<(Seq<u16>, int)> {
    dec_vec(b, i, dec16f())
}

/// Encode a PTP length-prefixed vector of `u16` elements.
pub open spec fn enc_vec_u16(s: Seq<u16>) -> Seq<u8>
    recommends
        s.len() <= u32::MAX,
{
    enc_vec(s, enc_u16f())
}

/// The encoding of one `i16` element, as a first-class function.
pub open spec fn enc_i16f() -> spec_fn(i16) -> Seq<u8> {
    |v: i16| enc16i(v)
}

/// Decode a PTP length-prefixed vector of `i16` elements.
pub open spec fn dec_vec_i16(b: Seq<u8>, i: int) -> Option<(Seq<i16>, int)> {
    dec_vec(b, i, dec16if())
}

/// Encode a PTP length-prefixed vector of `i16` elements.
pub open spec fn enc_vec_i16(s: Seq<i16>) -> Seq<u8>
    recommends
        s.len() <= u32::MAX,
{
    enc_vec(s, enc_i16f())
}

/// The encoding of one `u32` element, as a first-class function.
pub open spec fn enc_u32f() -> spec_fn(u32) -> Seq<u8> {
    |v: u32| enc32(v)
}

/// Decode a PTP length-prefixed vector of `u32` elements.
pub open spec fn dec_vec_u32(b: Seq<u8>, i: int) -> Option<(Seq<u32>, int)> {
    dec_vec(b, i, dec32f())
}

/// Encode a PTP length-prefixed vector of `u32` elements.
pub open spec fn enc_vec_u32(s: Seq<u32>) -> Seq<u8>
    recommends
        s.len() <= u32::MAX,
{
    enc_vec(s, enc_u32f())
}

/// The encoding of one `i32` element, as a first-class function.
pub open spec fn enc_i32f() -> spec_fn(i32) -> Seq<u8> {
    |v: i32| enc32i(v)
}

/// Decode a PTP length-prefixed vector of `i32` elements.
pub open spec fn dec_vec_i32(b: Seq<u8>, i: int) -> Option<(Seq<i32>, int)> {
    dec_vec(b, i, dec32if())
}

/// Encode a PTP length-prefixed vector of `i32` elements.
pub open spec fn enc_vec_i32(s: Seq<i32>) -> Seq<u8>
    recommends
        s.len() <= u32::MAX,
{
    enc_vec(s, enc_i32f())
}

/// The encoding of one `u64` element, as a first-class function.
pub open spec fn enc_u64f() -> spec_fn(u64) -> Seq<u8> {
    |v: u64| enc64(v)
}

/// Decode a PTP length-prefixed vector of `u64` elements.
pub open spec fn dec_vec_u64(b: Seq<u8>, i: int) -> Option<(Seq<u64>, int)> {
    dec_vec(b, i, dec64f())
}

/// Encode a PTP length-prefixed vector of `u64` elements.
pub open spec fn enc_vec_u64(s: Seq<u64>) -> Seq<u8>
    recommends
        s.len() <= u32::MAX,
{
    enc_vec(s, enc_u64f())
}

/// The encoding of one `i64` element, as a first-class function.
pub open spec fn enc_i64f() -> spec_fn(i64) -> Seq<u8> {
    |v: i64| enc64i(v)
}

/// Decode a PTP length-prefixed vector of `i64` elements.
pub open spec fn dec_vec_i64(b: Seq<u8>, i: int) -> Option<(Seq<i64>, int)> {
    dec_vec(b, i, dec64if())
}

/// Encode a PTP length-prefixed vector of `i64` elements.
pub open spec fn enc_vec_i64(s: Seq<i64>) -> Seq<u8>
    recommends
        s.len() <= u32::MAX,
{
    enc_vec(s, enc_i64f())
}

/// The encoding of one `u128` element, as a first-class function.
pub open spec fn enc_u128f() -> spec_fn((u64, u64)) -> Seq<u8> {
    |v: (u64, u64)| enc128(v)
}

/// Decode a PTP length-prefixed vector of `u128` elements.
pub open spec fn dec_vec_u128(b: Seq<u8>, i: int) -> Option<(Seq<(u64, u64)>, int)> {
    dec_vec(b, i, dec128f())
}

/// Encode a PTP length-prefixed vector of `u128` elements.
pub open spec fn enc_vec_u128(s: Seq<(u64, u64)>) -> Seq<u8>
    recommends
        s.len() <= u32::MAX,
{
    enc_vec(s, enc_u128f())
}

/// The encoding of one `i128` element, as a first-class function.
pub open spec fn enc_i128f() -> spec_fn((u64, u64)) -> Seq<u8> {
    |v: (u64, u64)| enc128(v)
}

/// Decode a PTP length-prefixed vector of `i128` elements.
pub open spec fn dec_vec_i128(b: Seq<u8>, i: int) -> Option<(Seq<(u64, u64)>, int)> {
    dec_vec(b, i, dec128f())
}

/// Encode a PTP length-prefixed vector of `i128` elements.
pub open spec fn enc_vec_i128(s: Seq<(u64, u64)>) -> Seq<u8>
    recommends
        s.len() <= u32::MAX,
{
    enc_vec(s, enc_i128f())
}

/// Decode the raw shape of a PTP string: a length byte `n` (0 for the
/// empty string), then `(n - 1) / 2` UTF-16LE code units, then one
/// terminator unit, which is discarded without validation.
pub open spec fn dec_str_units(b: Seq<u8>, i: int) -> Option<(Seq<u16>, int)> {
    match dec8(b, i) {
        None => None,
        Some((n, j)) => if n == 0 {
            Some((Seq::<u16>::empty(), j))
        } else {
            match dec_n(b, j, (((n - 1) / 2) as nat), dec16f()) {
                None => None,
                Some((units, k)) => match dec16(b, k) {
                    None => None,
                    Some((_term, m)) => Some((units, m)),
                },
            }
        },
    }
}

/// Decode a PTP string: its raw code units, validated as UTF-16.
pub open spec fn dec_str(b: Seq<u8>, i: int) -> Option<(Seq<char>, int)> {
    match dec_str_units(b, i) {
        None => None,
        Some((units, m)) => match utf16_to_chars(units) {
            Some(s) => Some((s, m)),
            None => None,
        },
    }
}

/// Encode a PTP string: the empty string is the single byte 0; otherwise a
/// length byte holding twice the unit count plus one, the UTF-16LE code
/// units, and a two-byte null terminator.
pub open spec fn enc_str(s: Seq<char>) -> Seq<u8>
    recommends
        utf16(s).len() <= 127,
{
    let u = utf16(s);
    if u.len() == 0 {
        seq![0u8]
    } else {
        seq![(2 * u.len() + 1) as u8] + enc_seq(u, enc_u16f()) + seq![0u8, 0u8]
    }
}

/// Decoding the encoding of a `u16` gives the value back.
pub proof fn lemma_dec16_enc16(v: u16, b: Seq<u8>, i: int)
    requires
        0 <= i,
        i + 2 <= b.len(),
        b.subrange(i, i + 2) == enc16(v),
    ensures
        dec16(b, i) == Some((v, i + 2)),
{
    assert(b[i] == enc16(v)[0]);
    assert(b[i + 1] == enc16(v)[1]);
    assert(v % 0x100 + (v / 0x100) * 0x100 == v) by (nonlinear_arith);
}

/// Decoding the encoding of a `u32` gives the value back.
pub proof fn lemma_dec32_enc32(v: u32, b: Seq<u8>, i: int)
    requires
        0 <= i,
        i + 4 <= b.len(),
        b.subrange(i, i + 4) == enc32(v),
    ensures
        dec32(b, i) == Some((v, i + 4)),
{
    assert(b[i] == enc32(v)[0]);
    assert(b[i + 1] == enc32(v)[1]);
    assert(b[i + 2] == enc32(v)[2]);
    assert(b[i + 3] == enc32(v)[3]);
    assert(v % 0x100 + ((v / 0x100) % 0x100) * 0x100 + ((v / 0x10000) % 0x100) * 0x10000 + ((v
        / 0x1000000) % 0x100) * 0x1000000 == v) by (nonlinear_arith);
}

/// Decoding the encoding of a `u64` gives the value back.
pub proof fn lemma_dec64_enc64(v: u64, b: Seq<u8>, i: int)
    requires
        0 <= i,
        i + 8 <= b.len(),
        b.subrange(i, i + 8) == enc64(v),
    ensures
        dec64(b, i) == Some((v, i + 8)),
{
    assert(b[i] == enc64(v)[0]);
    assert(b[i + 1] == enc64(v)[1]);
    assert(b[i + 2] == enc64(v)[2]);
    assert(b[i + 3] == enc64(v)[3]);
    assert(b[i + 4] == enc64(v)[4]);
    assert(b[i + 5] == enc64(v)[5]);
    assert(b[i + 6] == enc64(v)[6]);
    assert(b[i + 7] == enc64(v)[7]);
    lemma_u64_digits(v);
}

/// A `u64` equals the base-256 recomposition of its eight little-endian
/// digits.
proof fn lemma_u64_digits(v: u64)
    ensures
        v % 0x100 + ((v as int / 0x100) % 0x100) * 0x100 + ((v as int / 0x10000) % 0x100) * 0x10000
            + ((v as int / 0x1000000) % 0x100) * 0x1000000 + ((v as int / 0x100000000) % 0x100)
            * 0x100000000 + ((v as int / 0x10000000000) % 0x100) * 0x10000000000 + ((v as int
            / 0x1000000000000) % 0x100) * 0x1000000000000 + ((v as int / 0x100000000000000)
            % 0x100) * 0x100000000000000 == v,
{
    let x = v as int;
    vstd::arithmetic::div_mod::lemma_div_denominator(x, 0x100, 0x100);
    vstd::arithmetic::div_mod::lemma_div_denominator(x, 0x10000, 0x100);
    vstd::arithmetic::div_mod::lemma_div_denominator(x, 0x1000000, 0x100);
    vstd::arithmetic::div_mod::lemma_div_denominator(x, 0x100000000, 0x100);
    vstd::arithmetic::div_mod::lemma_div_denominator(x, 0x10000000000, 0x100);
    vstd::arithmetic::div_mod::lemma_div_denominator(x, 0x1000000000000, 0x100);
    vstd::arithmetic::div_mod::lemma_fundamental_div_mod(x, 0x100);
    vstd::arithmetic::div_mod::lemma_fundamental_div_mod(x / 0x100, 0x100);
    vstd::arithmetic::div_mod::lemma_fundamental_div_mod(x / 0x10000, 0x100);
    vstd::arithmetic::div_mod::lemma_fundamental_div_mod(x / 0x1000000, 0x100);
    vstd::arithmetic::div_mod::lemma_fundamental_div_mod(x / 0x100000000, 0x100);
    vstd::arithmetic::div_mod::lemma_fundamental_div_mod(x / 0x10000000000, 0x100);
    vstd::arithmetic::div_mod::lemma_fundamental_div_mod(x / 0x1000000000000, 0x100);
    assert(x / 0x100000000000000 < 0x100) by (nonlinear_arith)
        requires
            0 <= x < 0x10000000000000000,
    ;
    assert(x / 0x100000000000000 >= 0) by (nonlinear_arith)
        requires
            x >= 0,
    ;
}


/// Decoding the encoding of an `i16` gives the value back.
pub proof fn lemma_dec16i_enc16i(v: i16, b: Seq<u8>, i: int)
    requires
        0 <= i,
        i + 2 <= b.len(),
        b.subrange(i, i + 2) == enc16i(v),
    ensures
        dec16i(b, i) == Some((v, i + 2)),
{
    lemma_dec16_enc16(v as u16, b, i);
    assert((v as u16) as i16 == v) by (bit_vector);
}

/// Decoding the encoding of an `i32` gives the value back.
pub proof fn lemma_dec32i_enc32i(v: i32, b: Seq<u8>, i: int)
    requires
        0 <= i,
        i + 4 <= b.len(),
        b.subrange(i, i + 4) == enc32i(v),
    ensures
        dec32i(b, i) == Some((v, i + 4)),
{
    lemma_dec32_enc32(v as u32, b, i);
    assert((v as u32) as i32 == v) by (bit_vector);
}

/// Decoding the encoding of an `i64` gives the value back.
pub proof fn lemma_dec64i_enc64i(v: i64, b: Seq<u8>, i: int)
    requires
        0 <= i,
        i + 8 <= b.len(),
        b.subrange(i, i + 8) == enc64i(v),
    ensures
        dec64i(b, i) == Some((v, i + 8)),
{
    lemma_dec64_enc64(v as u64, b, i);
    assert((v as u64) as i64 == v) by (bit_vector);
}

/// Decoding the encoding of a 128-bit pair gives the pair back.
#[verifier::rlimit(100)]
pub proof fn lemma_dec128_enc128(v: (u64, u64), b: Seq<u8>, i: int)
    requires
        0 <= i,
        i + 16 <= b.len(),
        b.subrange(i, i + 16) == enc128(v),
    ensures
        dec128(b, i) == Some((v, i + 16)),
{
    assert(enc128(v).len() == 16);
    assert(enc64(v.0).len() == 8);
    assert(enc64(v.1).len() == 8);
    assert forall|j: int| 0 <= j < 16 implies b[i + j] == enc128(v)[j] by {
        assert(b.subrange(i, i + 16)[j] == b[i + j]);
    }
    assert forall|j: int| 0 <= j < 8 implies b[i + j] == enc64(v.0)[j] by {
        assert(enc128(v)[j] == (enc64(v.0) + enc64(v.1))[j]);
    }
    assert forall|j: int| 0 <= j < 8 implies b[i + 8 + j] == enc64(v.1)[j] by {
        assert(enc128(v)[8 + j] == (enc64(v.0) + enc64(v.1))[8 + j]);
    }
    assert(b.subrange(i, i + 8) =~= enc64(v.0));
    assert(b.subrange(i + 8, i + 16) =~= enc64(v.1));
    lemma_dec64_enc64(v.0, b, i);
    lemma_dec64_enc64(v.1, b, i + 8);
}

/// Decoding the encoding of an `i8` gives the value back.
pub proof fn lemma_dec8i_enc8i(v: i8, b: Seq<u8>, i: int)
    requires
        0 <= i,
        i + 1 <= b.len(),
        b.subrange(i, i + 1) == seq![v as u8],
    ensures
        dec8i(b, i) == Some((v, i + 1)),
{
    assert(b[i] == (seq![v as u8])[0]);
    assert((v as u8) as i8 == v) by (bit_vector);
}

/// A nonempty encoded sequence splits into its head element's bytes and the
/// encoding of the rest.
pub proof fn lemma_enc_seq_first<T>(s: Seq<T>, f: spec_fn(T) -> Seq<u8>)
    requires
        s.len() > 0,
    ensures
        enc_seq(s, f) == f(s[0]) + enc_seq(s.drop_first(), f),
{
    let m = s.map_values(f);
    assert(m.len() > 0);
    assert(m.flatten() == m.first().add(m.drop_first().flatten()));
    assert(m.first() == f(s[0]));
    assert(m.drop_first() =~= s.drop_first().map_values(f));
}

/// Decoding `n` encoded `u8` elements in place gives them back.
#[verifier::rlimit(50)]
pub proof fn lemma_dec_n_enc_u8(s: Seq<u8>, b: Seq<u8>, i: int)
    requires
        0 <= i,
        i + 1 * s.len() <= b.len(),
        b.subrange(i, i + 1 * s.len()) == enc_seq(s, enc_u8f()),
    ensures
        dec_n(b, i, s.len(), dec8f()) == Some((s, i + 1 * s.len())),
    decreases s.len(),
{
    if s.len() == 0 {
        assert(s =~= Seq::<u8>::empty());
    } else {
        lemma_enc_seq_first(s, enc_u8f());
        assert((enc_u8f())(s[0]).len() == 1);
        assert(enc_seq(s, enc_u8f()).len() == 1 * s.len());
        assert(enc_seq(s.drop_first(), enc_u8f()).len() == 1 * s.len() - 1);
        assert forall|j: int| 0 <= j < 1 * s.len() implies b[i + j] == enc_seq(s, enc_u8f())[j] by {
            assert(b.subrange(i, i + 1 * s.len())[j] == b[i + j]);
        }
        assert forall|j: int| 0 <= j < 1 * s.len() - 1 implies enc_seq(s, enc_u8f())[1 + j]
            == enc_seq(s.drop_first(), enc_u8f())[j] by {
            assert(enc_seq(s, enc_u8f())[1 + j] == ((enc_u8f())(s[0])
                + enc_seq(s.drop_first(), enc_u8f()))[1 + j]);
        }
        assert(b[i] == (enc_seq(s, enc_u8f()))[0]);
        assert((dec8f())(b, i) == Some((s[0], i + 1)));
        assert(b.subrange(i + 1, i + 1 + 1 * (s.len() - 1)) =~= enc_seq(
            s.drop_first(),
            enc_u8f(),
        ));
        lemma_dec_n_enc_u8(s.drop_first(), b, i + 1);
        assert(seq![s[0]] + s.drop_first() =~= s);
    }
}

/// Decoding `n` encoded `i8` elements in place gives them back.
#[verifier::rlimit(50)]
pub proof fn lemma_dec_n_enc_i8(s: Seq<i8>, b: Seq<u8>, i: int)
    requires
        0 <= i,
        i + 1 * s.len() <= b.len(),
        b.subrange(i, i + 1 * s.len()) == enc_seq(s, enc_i8f()),
    ensures
        dec_n(b, i, s.len(), dec8if()) == Some((s, i + 1 * s.len())),
    decreases s.len(),
{
    if s.len() == 0 {
        assert(s =~= Seq::<i8>::empty());
    } else {
        lemma_enc_seq_first(s, enc_i8f());
        assert((enc_i8f())(s[0]).len() == 1);
        assert(enc_seq(s, enc_i8f()).len() == 1 * s.len());
        assert(enc_seq(s.drop_first(), enc_i8f()).len() == 1 * s.len() - 1);
        assert forall|j: int| 0 <= j < 1 * s.len() implies b[i + j] == enc_seq(s, enc_i8f())[j] by {
            assert(b.subrange(i, i + 1 * s.len())[j] == b[i + j]);
        }
        assert forall|j: int| 0 <= j < 1 * s.len() - 1 implies enc_seq(s, enc_i8f())[1 + j]
            == enc_seq(s.drop_first(), enc_i8f())[j] by {
            assert(enc_seq(s, enc_i8f())[1 + j] == ((enc_i8f())(s[0])
                + enc_seq(s.drop_first(), enc_i8f()))[1 + j]);
        }
        assert(b.subrange(i, i + 1) =~= enc_seq(s, enc_i8f()).subrange(0, 1));
        assert(enc_seq(s, enc_i8f()).subrange(0, 1) =~= (enc_i8f())(s[0]));
        lemma_dec8i_enc8i(s[0], b, i);
        assert(b.subrange(i + 1, i + 1 + 1 * (s.len() - 1)) =~= enc_seq(
            s.drop_first(),
            enc_i8f(),
        ));
        lemma_dec_n_enc_i8(s.drop_first(), b, i + 1);
        assert(seq![s[0]] + s.drop_first() =~= s);
    }
}

/// Decoding `n` encoded `u16` elements in place gives them back.
#[verifier::rlimit(50)]
pub proof fn lemma_dec_n_enc_u16(s: Seq<u16>, b: Seq<u8>, i: int)
    requires
        0 <= i,
        i + 2 * s.len() <= b.len(),
        b.subrange(i, i + 2 * s.len()) == enc_seq(s, enc_u16f()),
    ensures
        dec_n(b, i, s.len(), dec16f()) == Some((s, i + 2 * s.len())),
    decreases s.len(),
{
    if s.len() == 0 {
        assert(s =~= Seq::<u16>::empty());
    } else {
        lemma_enc_seq_first(s, enc_u16f());
        assert((enc_u16f())(s[0]).len() == 2);
        assert(enc_seq(s, enc_u16f()).len() == 2 * s.len());
        assert(enc_seq(s.drop_first(), enc_u16f()).len() == 2 * s.len() - 2);
        assert forall|j: int| 0 <= j < 2 * s.len() implies b[i + j] == enc_seq(s, enc_u16f())[j] by {
            assert(b.subrange(i, i + 2 * s.len())[j] == b[i + j]);
        }
        assert forall|j: int| 0 <= j < 2 * s.len() - 2 implies enc_seq(s, enc_u16f())[2 + j]
            == enc_seq(s.drop_first(), enc_u16f())[j] by {
            assert(enc_seq(s, enc_u16f())[2 + j] == ((enc_u16f())(s[0])
                + enc_seq(s.drop_first(), enc_u16f()))[2 + j]);
        }
        assert(b.subrange(i, i + 2) =~= enc_seq(s, enc_u16f()).subrange(0, 2));
        assert(enc_seq(s, enc_u16f()).subrange(0, 2) =~= (enc_u16f())(s[0]));
        lemma_dec16_enc16(s[0], b, i);
        assert(b.subrange(i + 2, i + 2 + 2 * (s.len() - 1)) =~= enc_seq(
            s.drop_first(),
            enc_u16f(),
        ));
        lemma_dec_n_enc_u16(s.drop_first(), b, i + 2);
        assert(seq![s[0]] + s.drop_first() =~= s);
    }
}

/// Decoding `n` encoded `i16` elements in place gives them back.
#[verifier::rlimit(50)]
pub proof fn lemma_dec_n_enc_i16(s: Seq<i16>, b: Seq<u8>, i: int)
    requires
        0 <= i,
        i + 2 * s.len() <= b.len(),
        b.subrange(i, i + 2 * s.len()) == enc_seq(s, enc_i16f()),
    ensures
        dec_n(b, i, s.len(), dec16if()) == Some((s, i + 2 * s.len())),
    decreases s.len(),
{
    if s.len() == 0 {
        assert(s =~= Seq::<i16>::empty());
    } else {
        lemma_enc_seq_first(s, enc_i16f());
        assert((enc_i16f())(s[0]).len() == 2);
        assert(enc_seq(s, enc_i16f()).len() == 2 * s.len());
        assert(enc_seq(s.drop_first(), enc_i16f()).len() == 2 * s.len() - 2);
        assert forall|j: int| 0 <= j < 2 * s.len() implies b[i + j] == enc_seq(s, enc_i16f())[j] by {
            assert(b.subrange(i, i + 2 * s.len())[j] == b[i + j]);
        }
        assert forall|j: int| 0 <= j < 2 * s.len() - 2 implies enc_seq(s, enc_i16f())[2 + j]
            == enc_seq(s.drop_first(), enc_i16f())[j] by {
            assert(enc_seq(s, enc_i16f())[2 + j] == ((enc_i16f())(s[0])
                + enc_seq(s.drop_first(), enc_i16f()))[2 + j]);
        }
        assert(b.subrange(i, i + 2) =~= enc_seq(s, enc_i16f()).subrange(0, 2));
        assert(enc_seq(s, enc_i16f()).subrange(0, 2) =~= (enc_i16f())(s[0]));
        lemma_dec16i_enc16i(s[0], b, i);
        assert(b.subrange(i + 2, i + 2 + 2 * (s.len() - 1)) =~= enc_seq(
            s.drop_first(),
            enc_i16f(),
        ));
        lemma_dec_n_enc_i16(s.drop_first(), b, i + 2);
        assert(seq![s[0]] + s.drop_first() =~= s);
    }
}

/// Decoding `n` encoded `u32` elements in place gives them back.
#[verifier::rlimit(50)]
pub proof fn lemma_dec_n_enc_u32(s: Seq<u32>, b: Seq<u8>, i: int)
    requires
        0 <= i,
        i + 4 * s.len() <= b.len(),
        b.subrange(i, i + 4 * s.len()) == enc_seq(s, enc_u32f()),
    ensures
        dec_n(b, i, s.len(), dec32f()) == Some((s, i + 4 * s.len())),
    decreases s.len(),
{
    if s.len() == 0 {
        assert(s =~= Seq::<u32>::empty());
    } else {
        lemma_enc_seq_first(s, enc_u32f());
        assert((enc_u32f())(s[0]).len() == 4);
        assert(enc_seq(s, enc_u32f()).len() == 4 * s.len());
        assert(enc_seq(s.drop_first(), enc_u32f()).len() == 4 * s.len() - 4);
        assert forall|j: int| 0 <= j < 4 * s.len() implies b[i + j] == enc_seq(s, enc_u32f())[j] by {
            assert(b.subrange(i, i + 4 * s.len())[j] == b[i + j]);
        }
        assert forall|j: int| 0 <= j < 4 * s.len() - 4 implies enc_seq(s, enc_u32f())[4 + j]
            == enc_seq(s.drop_first(), enc_u32f())[j] by {
            assert(enc_seq(s, enc_u32f())[4 + j] == ((enc_u32f())(s[0])
                + enc_seq(s.drop_first(), enc_u32f()))[4 + j]);
        }
        assert(b.subrange(i, i + 4) =~= enc_seq(s, enc_u32f()).subrange(0, 4));
        assert(enc_seq(s, enc_u32f()).subrange(0, 4) =~= (enc_u32f())(s[0]));
        lemma_dec32_enc32(s[0], b, i);
        assert(b.subrange(i + 4, i + 4 + 4 * (s.len() - 1)) =~= enc_seq(
            s.drop_first(),
            enc_u32f(),
        ));
        lemma_dec_n_enc_u32(s.drop_first(), b, i + 4);
        assert(seq![s[0]] + s.drop_first() =~= s);
    }
}

/// Decoding `n` encoded `i32` elements in place gives them back.
#[verifier::rlimit(50)]
pub proof fn lemma_dec_n_enc_i32(s: Seq<i32>, b: Seq<u8>, i: int)
    requires
        0 <= i,
        i + 4 * s.len() <= b.len(),
        b.subrange(i, i + 4 * s.len()) == enc_seq(s, enc_i32f()),
    ensures
        dec_n(b, i, s.len(), dec32if()) == Some((s, i + 4 * s.len())),
    decreases s.len(),
{
    if s.len() == 0 {
        assert(s =~= Seq::<i32>::empty());
    } else {
        lemma_enc_seq_first(s, enc_i32f());
        assert((enc_i32f())(s[0]).len() == 4);
        assert(enc_seq(s, enc_i32f()).len() == 4 * s.len());
        assert(enc_seq(s.drop_first(), enc_i32f()).len() == 4 * s.len() - 4);
        assert forall|j: int| 0 <= j < 4 * s.len() implies b[i + j] == enc_seq(s, enc_i32f())[j] by {
            assert(b.subrange(i, i + 4 * s.len())[j] == b[i + j]);
        }
        assert forall|j: int| 0 <= j < 4 * s.len() - 4 implies enc_seq(s, enc_i32f())[4 + j]
            == enc_seq(s.drop_first(), enc_i32f())[j] by {
            assert(enc_seq(s, enc_i32f())[4 + j] == ((enc_i32f())(s[0])
                + enc_seq(s.drop_first(), enc_i32f()))[4 + j]);
        }
        assert(b.subrange(i, i + 4) =~= enc_seq(s, enc_i32f()).subrange(0, 4));
        assert(enc_seq(s, enc_i32f()).subrange(0, 4) =~= (enc_i32f())(s[0]));
        lemma_dec32i_enc32i(s[0], b, i);
        assert(b.subrange(i + 4, i + 4 + 4 * (s.len() - 1)) =~= enc_seq(
            s.drop_first(),
            enc_i32f(),
        ));
        lemma_dec_n_enc_i32(s.drop_first(), b, i + 4);
        assert(seq![s[0]] + s.drop_first() =~= s);
    }
}

/// Decoding `n` encoded `u64` elements in place gives them back.
#[verifier::rlimit(50)]
pub proof fn lemma_dec_n_enc_u64(s: Seq<u64>, b: Seq<u8>, i: int)
    requires
        0 <= i,
        i + 8 * s.len() <= b.len(),
        b.subrange(i, i + 8 * s.len()) == enc_seq(s, enc_u64f()),
    ensures
        dec_n(b, i, s.len(), dec64f()) == Some((s, i + 8 * s.len())),
    decreases s.len(),
{
    if s.len() == 0 {
        assert(s =~= Seq::<u64>::empty());
    } else {
        lemma_enc_seq_first(s, enc_u64f());
        assert((enc_u64f())(s[0]).len() == 8);
        assert(enc_seq(s, enc_u64f()).len() == 8 * s.len());
        assert(enc_seq(s.drop_first(), enc_u64f()).len() == 8 * s.len() - 8);
        assert forall|j: int| 0 <= j < 8 * s.len() implies b[i + j] == enc_seq(s, enc_u64f())[j] by {
            assert(b.subrange(i, i + 8 * s.len())[j] == b[i + j]);
        }
        assert forall|j: int| 0 <= j < 8 * s.len() - 8 implies enc_seq(s, enc_u64f())[8 + j]
            == enc_seq(s.drop_first(), enc_u64f())[j] by {
            assert(enc_seq(s, enc_u64f())[8 + j] == ((enc_u64f())(s[0])
                + enc_seq(s.drop_first(), enc_u64f()))[8 + j]);
        }
        assert(b.subrange(i, i + 8) =~= enc_seq(s, enc_u64f()).subrange(0, 8));
        assert(enc_seq(s, enc_u64f()).subrange(0, 8) =~= (enc_u64f())(s[0]));
        lemma_dec64_enc64(s[0], b, i);
        assert(b.subrange(i + 8, i + 8 + 8 * (s.len() - 1)) =~= enc_seq(
            s.drop_first(),
            enc_u64f(),
        ));
        lemma_dec_n_enc_u64(s.drop_first(), b, i + 8);
        assert(seq![s[0]] + s.drop_first() =~= s);
    }
}

/// Decoding `n` encoded `i64` elements in place gives them back.
#[verifier::rlimit(50)]
pub proof fn lemma_dec_n_enc_i64(s: Seq<i64>, b: Seq<u8>, i: int)
    requires
        0 <= i,
        i + 8 * s.len() <= b.len(),
        b.subrange(i, i + 8 * s.len()) == enc_seq(s, enc_i64f()),
    ensures
        dec_n(b, i, s.len(), dec64if()) == Some((s, i + 8 * s.len())),
    decreases s.len(),
{
    if s.len() == 0 {
        assert(s =~= Seq::<i64>::empty());
    } else {
        lemma_enc_seq_first(s, enc_i64f());
        assert((enc_i64f())(s[0]).len() == 8);
        assert(enc_seq(s, enc_i64f()).len() == 8 * s.len());
        assert(enc_seq(s.drop_first(), enc_i64f()).len() == 8 * s.len() - 8);
        assert forall|j: int| 0 <= j < 8 * s.len() implies b[i + j] == enc_seq(s, enc_i64f())[j] by {
            assert(b.subrange(i, i + 8 * s.len())[j] == b[i + j]);
        }
        assert forall|j: int| 0 <= j < 8 * s.len() - 8 implies enc_seq(s, enc_i64f())[8 + j]
            == enc_seq(s.drop_first(), enc_i64f())[j] by {
            assert(enc_seq(s, enc_i64f())[8 + j] == ((enc_i64f())(s[0])
                + enc_seq(s.drop_first(), enc_i64f()))[8 + j]);
        }
        assert(b.subrange(i, i + 8) =~= enc_seq(s, enc_i64f()).subrange(0, 8));
        assert(enc_seq(s, enc_i64f()).subrange(0, 8) =~= (enc_i64f())(s[0]));
        lemma_dec64i_enc64i(s[0], b, i);
        assert(b.subrange(i + 8, i + 8 + 8 * (s.len() - 1)) =~= enc_seq(
            s.drop_first(),
            enc_i64f(),
        ));
        lemma_dec_n_enc_i64(s.drop_first(), b, i + 8);
        assert(seq![s[0]] + s.drop_first() =~= s);
    }
}

/// Decoding `n` encoded `u128` elements in place gives them back.
#[verifier::rlimit(50)]
pub proof fn lemma_dec_n_enc_u128(s: Seq<(u64, u64)>, b: Seq<u8>, i: int)
    requires
        0 <= i,
        i + 16 * s.len() <= b.len(),
        b.subrange(i, i + 16 * s.len()) == enc_seq(s, enc_u128f()),
    ensures
        dec_n(b, i, s.len(), dec128f()) == Some((s, i + 16 * s.len())),
    decreases s.len(),
{
    if s.len() == 0 {
        assert(s =~= Seq::<(u64, u64)>::empty());
    } else {
        lemma_enc_seq_first(s, enc_u128f());
        assert((enc_u128f())(s[0]).len() == 16);
        assert(enc_seq(s, enc_u128f()).len() == 16 * s.len());
        assert(enc_seq(s.drop_first(), enc_u128f()).len() == 16 * s.len() - 16);
        assert forall|j: int| 0 <= j < 16 * s.len() implies b[i + j] == enc_seq(s, enc_u128f())[j] by {
            assert(b.subrange(i, i + 16 * s.len())[j] == b[i + j]);
        }
        assert forall|j: int| 0 <= j < 16 * s.len() - 16 implies enc_seq(s, enc_u128f())[16 + j]
            == enc_seq(s.drop_first(), enc_u128f())[j] by {
            assert(enc_seq(s, enc_u128f())[16 + j] == ((enc_u128f())(s[0])
                + enc_seq(s.drop_first(), enc_u128f()))[16 + j]);
        }
        assert(b.subrange(i, i + 16) =~= enc_seq(s, enc_u128f()).subrange(0, 16));
        assert(enc_seq(s, enc_u128f()).subrange(0, 16) =~= (enc_u128f())(s[0]));
        lemma_dec128_enc128(s[0], b, i);
        assert(b.subrange(i + 16, i + 16 + 16 * (s.len() - 1)) =~= enc_seq(
            s.drop_first(),
            enc_u128f(),
        ));
        lemma_dec_n_enc_u128(s.drop_first(), b, i + 16);
        assert(seq![s[0]] + s.drop_first() =~= s);
    }
}

/// Decoding `n` encoded `i128` elements in place gives them back.
#[verifier::rlimit(50)]
pub proof fn lemma_dec_n_enc_i128(s: Seq<(u64, u64)>, b: Seq<u8>, i: int)
    requires
        0 <= i,
        i + 16 * s.len() <= b.len(),
        b.subrange(i, i + 16 * s.len()) == enc_seq(s, enc_i128f()),
    ensures
        dec_n(b, i, s.len(), dec128f()) == Some((s, i + 16 * s.len())),
    decreases s.len(),
{
    if s.len() == 0 {
        assert(s =~= Seq::<(u64, u64)>::empty());
    } else {
        lemma_enc_seq_first(s, enc_i128f());
        assert((enc_i128f())(s[0]).len() == 16);
        assert(enc_seq(s, enc_i128f()).len() == 16 * s.len());
        assert(enc_seq(s.drop_first(), enc_i128f()).len() == 16 * s.len() - 16);
        assert forall|j: int| 0 <= j < 16 * s.len() implies b[i + j] == enc_seq(s, enc_i128f())[j] by {
            assert(b.subrange(i, i + 16 * s.len())[j] == b[i + j]);
        }
        assert forall|j: int| 0 <= j < 16 * s.len() - 16 implies enc_seq(s, enc_i128f())[16 + j]
            == enc_seq(s.drop_first(), enc_i128f())[j] by {
            assert(enc_seq(s, enc_i128f())[16 + j] == ((enc_i128f())(s[0])
                + enc_seq(s.drop_first(), enc_i128f()))[16 + j]);
        }
        assert(b.subrange(i, i + 16) =~= enc_seq(s, enc_i128f()).subrange(0, 16));
        assert(enc_seq(s, enc_i128f()).subrange(0, 16) =~= (enc_i128f())(s[0]));
        lemma_dec128_enc128(s[0], b, i);
        assert(b.subrange(i + 16, i + 16 + 16 * (s.len() - 1)) =~= enc_seq(
            s.drop_first(),
            enc_i128f(),
        ));
        lemma_dec_n_enc_i128(s.drop_first(), b, i + 16);
        assert(seq![s[0]] + s.drop_first() =~= s);
    }
}


/// When every element encodes to `k` bytes, an encoded sequence has `k`
/// bytes per element.
pub proof fn lemma_enc_seq_len<T>(s: Seq<T>, f: spec_fn(T) -> Seq<u8>, k: nat)
    requires
        forall|x: T| (#[trigger] f(x)).len() == k,
    ensures
        enc_seq(s, f).len() == k * s.len(),
    decreases s.len(),
{
    if s.len() == 0 {
        assert(enc_seq(s, f) =~= Seq::<u8>::empty());
    } else {
        lemma_enc_seq_first(s, f);
        lemma_enc_seq_len(s.drop_first(), f, k);
        assert(k + k * (s.len() - 1) == k * s.len()) by (nonlinear_arith);
    }
}

/// A length-prefixed vector of `u8` elements decodes back to itself.
#[verifier::rlimit(50)]
pub proof fn lemma_dec_vec_enc_vec_u8(s: Seq<u8>)
    requires
        s.len() <= u32::MAX,
    ensures
        enc_vec_u8(s).len() == 4 + 1 * s.len(),
        dec_vec_u8(enc_vec_u8(s), 0) == Some((s, 4 + 1 * s.len() as int)),
{
    let b = enc_vec_u8(s);
    assert(forall|x: u8| (#[trigger] (enc_u8f())(x)).len() == 1);
    lemma_enc_seq_len(s, enc_u8f(), 1);
    assert(b.len() == 4 + 1 * s.len());
    assert(b.subrange(0, 4) =~= enc32(s.len() as u32));
    lemma_dec32_enc32(s.len() as u32, b, 0);
    assert forall|j: int| 0 <= j < 1 * s.len() implies b[4 + j] == enc_seq(s, enc_u8f())[j] by {
        assert(b[4 + j] == (enc32(s.len() as u32) + enc_seq(s, enc_u8f()))[4 + j]);
    }
    assert(b.subrange(4, 4 + 1 * s.len() as int) =~= enc_seq(s, enc_u8f()));
    lemma_dec_n_enc_u8(s, b, 4);
    assert((s.len() as u32) as nat == s.len());
}

/// A length-prefixed vector of `i8` elements decodes back to itself.
#[verifier::rlimit(50)]
pub proof fn lemma_dec_vec_enc_vec_i8(s: Seq<i8>)
    requires
        s.len() <= u32::MAX,
    ensures
        enc_vec_i8(s).len() == 4 + 1 * s.len(),
        dec_vec_i8(enc_vec_i8(s), 0) == Some((s, 4 + 1 * s.len() as int)),
{
    let b = enc_vec_i8(s);
    assert(forall|x: i8| (#[trigger] (enc_i8f())(x)).len() == 1);
    lemma_enc_seq_len(s, enc_i8f(), 1);
    assert(b.len() == 4 + 1 * s.len());
    assert(b.subrange(0, 4) =~= enc32(s.len() as u32));
    lemma_dec32_enc32(s.len() as u32, b, 0);
    assert forall|j: int| 0 <= j < 1 * s.len() implies b[4 + j] == enc_seq(s, enc_i8f())[j] by {
        assert(b[4 + j] == (enc32(s.len() as u32) + enc_seq(s, enc_i8f()))[4 + j]);
    }
    assert(b.subrange(4, 4 + 1 * s.len() as int) =~= enc_seq(s, enc_i8f()));
    lemma_dec_n_enc_i8(s, b, 4);
    assert((s.len() as u32) as nat == s.len());
}

/// A length-prefixed vector of `u16` elements decodes back to itself.
#[verifier::rlimit(50)]
pub proof fn lemma_dec_vec_enc_vec_u16(s: Seq<u16>)
    requires
        s.len() <= u32::MAX,
    ensures
        enc_vec_u16(s).len() == 4 + 2 * s.len(),
        dec_vec_u16(enc_vec_u16(s), 0) == Some((s, 4 + 2 * s.len() as int)),
{
    let b = enc_vec_u16(s);
    assert(forall|x: u16| (#[trigger] (enc_u16f())(x)).len() == 2);
    lemma_enc_seq_len(s, enc_u16f(), 2);
    assert(b.len() == 4 + 2 * s.len());
    assert(b.subrange(0, 4) =~= enc32(s.len() as u32));
    lemma_dec32_enc32(s.len() as u32, b, 0);
    assert forall|j: int| 0 <= j < 2 * s.len() implies b[4 + j] == enc_seq(s, enc_u16f())[j] by {
        assert(b[4 + j] == (enc32(s.len() as u32) + enc_seq(s, enc_u16f()))[4 + j]);
    }
    assert(b.subrange(4, 4 + 2 * s.len() as int) =~= enc_seq(s, enc_u16f()));
    lemma_dec_n_enc_u16(s, b, 4);
    assert((s.len() as u32) as nat == s.len());
}

/// A length-prefixed vector of `i16` elements decodes back to itself.
#[verifier::rlimit(50)]
pub proof fn lemma_dec_vec_enc_vec_i16(s: Seq<i16>)
    requires
        s.len() <= u32::MAX,
    ensures
        enc_vec_i16(s).len() == 4 + 2 * s.len(),
        dec_vec_i16(enc_vec_i16(s), 0) == Some((s, 4 + 2 * s.len() as int)),
{
    let b = enc_vec_i16(s);
    assert(forall|x: i16| (#[trigger] (enc_i16f())(x)).len() == 2);
    lemma_enc_seq_len(s, enc_i16f(), 2);
    assert(b.len() == 4 + 2 * s.len());
    assert(b.subrange(0, 4) =~= enc32(s.len() as u32));
    lemma_dec32_enc32(s.len() as u32, b, 0);
    assert forall|j: int| 0 <= j < 2 * s.len() implies b[4 + j] == enc_seq(s, enc_i16f())[j] by {
        assert(b[4 + j] == (enc32(s.len() as u32) + enc_seq(s, enc_i16f()))[4 + j]);
    }
    assert(b.subrange(4, 4 + 2 * s.len() as int) =~= enc_seq(s, enc_i16f()));
    lemma_dec_n_enc_i16(s, b, 4);
    assert((s.len() as u32) as nat == s.len());
}

/// A length-prefixed vector of `u32` elements decodes back to itself.
#[verifier::rlimit(50)]
pub proof fn lemma_dec_vec_enc_vec_u32(s: Seq<u32>)
    requires
        s.len() <= u32::MAX,
    ensures
        enc_vec_u32(s).len() == 4 + 4 * s.len(),
        dec_vec_u32(enc_vec_u32(s), 0) == Some((s, 4 + 4 * s.len() as int)),
{
    let b = enc_vec_u32(s);
    assert(forall|x: u32| (#[trigger] (enc_u32f())(x)).len() == 4);
    lemma_enc_seq_len(s, enc_u32f(), 4);
    assert(b.len() == 4 + 4 * s.len());
    assert(b.subrange(0, 4) =~= enc32(s.len() as u32));
    lemma_dec32_enc32(s.len() as u32, b, 0);
    assert forall|j: int| 0 <= j < 4 * s.len() implies b[4 + j] == enc_seq(s, enc_u32f())[j] by {
        assert(b[4 + j] == (enc32(s.len() as u32) + enc_seq(s, enc_u32f()))[4 + j]);
    }
    assert(b.subrange(4, 4 + 4 * s.len() as int) =~= enc_seq(s, enc_u32f()));
    lemma_dec_n_enc_u32(s, b, 4);
    assert((s.len() as u32) as nat == s.len());
}

/// A length-prefixed vector of `i32` elements decodes back to itself.
#[verifier::rlimit(50)]
pub proof fn lemma_dec_vec_enc_vec_i32(s: Seq<i32>)
    requires
        s.len() <= u32::MAX,
    ensures
        enc_vec_i32(s).len() == 4 + 4 * s.len(),
        dec_vec_i32(enc_vec_i32(s), 0) == Some((s, 4 + 4 * s.len() as int)),
{
    let b = enc_vec_i32(s);
    assert(forall|x: i32| (#[trigger] (enc_i32f())(x)).len() == 4);
    lemma_enc_seq_len(s, enc_i32f(), 4);
    assert(b.len() == 4 + 4 * s.len());
    assert(b.subrange(0, 4) =~= enc32(s.len() as u32));
    lemma_dec32_enc32(s.len() as u32, b, 0);
    assert forall|j: int| 0 <= j < 4 * s.len() implies b[4 + j] == enc_seq(s, enc_i32f())[j] by {
        assert(b[4 + j] == (enc32(s.len() as u32) + enc_seq(s, enc_i32f()))[4 + j]);
    }
    assert(b.subrange(4, 4 + 4 * s.len() as int) =~= enc_seq(s, enc_i32f()));
    lemma_dec_n_enc_i32(s, b, 4);
    assert((s.len() as u32) as nat == s.len());
}

/// A length-prefixed vector of `u64` elements decodes back to itself.
#[verifier::rlimit(50)]
pub proof fn lemma_dec_vec_enc_vec_u64(s: Seq<u64>)
    requires
        s.len() <= u32::MAX,
    ensures
        enc_vec_u64(s).len() == 4 + 8 * s.len(),
        dec_vec_u64(enc_vec_u64(s), 0) == Some((s, 4 + 8 * s.len() as int)),
{
    let b = enc_vec_u64(s);
    assert(forall|x: u64| (#[trigger] (enc_u64f())(x)).len() == 8);
    lemma_enc_seq_len(s, enc_u64f(), 8);
    assert(b.len() == 4 + 8 * s.len());
    assert(b.subrange(0, 4) =~= enc32(s.len() as u32));
    lemma_dec32_enc32(s.len() as u32, b, 0);
    assert forall|j: int| 0 <= j < 8 * s.len() implies b[4 + j] == enc_seq(s, enc_u64f())[j] by {
        assert(b[4 + j] == (enc32(s.len() as u32) + enc_seq(s, enc_u64f()))[4 + j]);
    }
    assert(b.subrange(4, 4 + 8 * s.len() as int) =~= enc_seq(s, enc_u64f()));
    lemma_dec_n_enc_u64(s, b, 4);
    assert((s.len() as u32) as nat == s.len());
}

/// A length-prefixed vector of `i64` elements decodes back to itself.
#[verifier::rlimit(50)]
pub proof fn lemma_dec_vec_enc_vec_i64(s: Seq<i64>)
    requires
        s.len() <= u32::MAX,
    ensures
        enc_vec_i64(s).len() == 4 + 8 * s.len(),
        dec_vec_i64(enc_vec_i64(s), 0) == Some((s, 4 + 8 * s.len() as int)),
{
    let b = enc_vec_i64(s);
    assert(forall|x: i64| (#[trigger] (enc_i64f())(x)).len() == 8);
    lemma_enc_seq_len(s, enc_i64f(), 8);
    assert(b.len() == 4 + 8 * s.len());
    assert(b.subrange(0, 4) =~= enc32(s.len() as u32));
    lemma_dec32_enc32(s.len() as u32, b, 0);
    assert forall|j: int| 0 <= j < 8 * s.len() implies b[4 + j] == enc_seq(s, enc_i64f())[j] by {
        assert(b[4 + j] == (enc32(s.len() as u32) + enc_seq(s, enc_i64f()))[4 + j]);
    }
    assert(b.subrange(4, 4 + 8 * s.len() as int) =~= enc_seq(s, enc_i64f()));
    lemma_dec_n_enc_i64(s, b, 4);
    assert((s.len() as u32) as nat == s.len());
}

/// A length-prefixed vector of `u128` elements decodes back to itself.
#[verifier::rlimit(50)]
pub proof fn lemma_dec_vec_enc_vec_u128(s: Seq<(u64, u64)>)
    requires
        s.len() <= u32::MAX,
    ensures
        enc_vec_u128(s).len() == 4 + 16 * s.len(),
        dec_vec_u128(enc_vec_u128(s), 0) == Some((s, 4 + 16 * s.len() as int)),
{
    let b = enc_vec_u128(s);
    assert(forall|x: (u64, u64)| (#[trigger] (enc_u128f())(x)).len() == 16);
    lemma_enc_seq_len(s, enc_u128f(), 16);
    assert(b.len() == 4 + 16 * s.len());
    assert(b.subrange(0, 4) =~= enc32(s.len() as u32));
    lemma_dec32_enc32(s.len() as u32, b, 0);
    assert forall|j: int| 0 <= j < 16 * s.len() implies b[4 + j] == enc_seq(s, enc_u128f())[j] by {
        assert(b[4 + j] == (enc32(s.len() as u32) + enc_seq(s, enc_u128f()))[4 + j]);
    }
    assert(b.subrange(4, 4 + 16 * s.len() as int) =~= enc_seq(s, enc_u128f()));
    lemma_dec_n_enc_u128(s, b, 4);
    assert((s.len() as u32) as nat == s.len());
}

/// A length-prefixed vector of `i128` elements decodes back to itself.
#[verifier::rlimit(50)]
pub proof fn lemma_dec_vec_enc_vec_i128(s: Seq<(u64, u64)>)
    requires
        s.len() <= u32::MAX,
    ensures
        enc_vec_i128(s).len() == 4 + 16 * s.len(),
        dec_vec_i128(enc_vec_i128(s), 0) == Some((s, 4 + 16 * s.len() as int)),
{
    let b = enc_vec_i128(s);
    assert(forall|x: (u64, u64)| (#[trigger] (enc_i128f())(x)).len() == 16);
    lemma_enc_seq_len(s, enc_i128f(), 16);
    assert(b.len() == 4 + 16 * s.len());
    assert(b.subrange(0, 4) =~= enc32(s.len() as u32));
    lemma_dec32_enc32(s.len() as u32, b, 0);
    assert forall|j: int| 0 <= j < 16 * s.len() implies b[4 + j] == enc_seq(s, enc_i128f())[j] by {
        assert(b[4 + j] == (enc32(s.len() as u32) + enc_seq(s, enc_i128f()))[4 + j]);
    }
    assert(b.subrange(4, 4 + 16 * s.len() as int) =~= enc_seq(s, enc_i128f()));
    lemma_dec_n_enc_i128(s, b, 4);
    assert((s.len() as u32) as nat == s.len());
}

/// An encoded PTP string decodes back to the same characters.
#[verifier::rlimit(50)]
pub proof fn lemma_dec_str_enc_str(s: Seq<char>)
    requires
        utf16(s).len() <= 127,
    ensures
        dec_str(enc_str(s), 0) == Some((s, enc_str(s).len() as int)),
{
    let u = utf16(s);
    lemma_utf16_round_trip(s);
    if u.len() == 0 {
        lemma_utf16_empty(s);
        assert(s =~= Seq::<char>::empty());
        let b = enc_str(s);
        assert(b[0] == 0u8);
        assert(dec8(b, 0) == Some((0u8, 1int)));
        assert(utf16_to_chars(Seq::<u16>::empty()) == Some(Seq::<char>::empty()));
    } else {
        let b = enc_str(s);
        let n = (2 * u.len() + 1) as u8;
        assert(forall|x: u16| (#[trigger] (enc_u16f())(x)).len() == 2);
        lemma_enc_seq_len(u, enc_u16f(), 2);
        assert(b.len() == 3 + 2 * u.len());
        assert(b[0] == n);
        assert(n as int == 2 * u.len() + 1);
        assert((n - 1) / 2 == u.len());
        assert forall|j: int| 0 <= j < 2 * u.len() implies b[1 + j] == enc_seq(u, enc_u16f())[j] by {
            assert(b[1 + j] == (seq![n] + enc_seq(u, enc_u16f()) + seq![0u8, 0u8])[1 + j]);
        }
        assert(b.subrange(1, 1 + 2 * u.len() as int) =~= enc_seq(u, enc_u16f()));
        lemma_dec_n_enc_u16(u, b, 1);
        assert(b[1 + 2 * u.len() as int] == 0u8 && b[2 + 2 * u.len() as int] == 0u8);
        assert(b.subrange(1 + 2 * u.len() as int, 3 + 2 * u.len() as int) =~= enc16(0u16));
        lemma_dec16_enc16(0u16, b, 1 + 2 * u.len() as int);
    }
}


/// A subrange equal to a concatenation splits into subranges equal to the
/// parts.
pub proof fn lemma_subrange_concat(b: Seq<u8>, i: int, x: Seq<u8>, y: Seq<u8>)
    requires
        0 <= i,
        i + x.len() + y.len() <= b.len(),
        b.subrange(i, i + x.len() + y.len()) == x + y,
    ensures
        b.subrange(i, i + x.len() as int) == x,
        b.subrange(i + x.len() as int, i + x.len() + y.len()) == y,
{
    assert forall|j: int| 0 <= j < x.len() implies b.subrange(i, i + x.len() as int)[j] == x[j] by {
        assert(b.subrange(i, i + x.len() + y.len())[j] == b[i + j]);
        assert(b.subrange(i, i + x.len() as int)[j] == b[i + j]);
        assert((x + y)[j] == x[j]);
    }
    assert(b.subrange(i, i + x.len() as int) =~= x);
    assert forall|j: int| 0 <= j < y.len() implies b.subrange(
        i + x.len() as int,
        i + x.len() + y.len(),
    )[j] == y[j] by {
        assert(b.subrange(i, i + x.len() + y.len())[x.len() + j] == b[i + x.len() + j]);
        assert(b.subrange(i + x.len() as int, i + x.len() + y.len())[j] == b[i + x.len() + j]);
        assert((x + y)[x.len() + j] == y[j]);
    }
    assert(b.subrange(i + x.len() as int, i + x.len() + y.len()) =~= y);
}

/// A length-prefixed vector of `u8` elements decodes back in place.
#[verifier::rlimit(50)]
pub proof fn lemma_dec_vec_enc_vec_u8_at(s: Seq<u8>, b: Seq<u8>, i: int)
    requires
        s.len() <= u32::MAX,
        0 <= i,
        i + 4 + 1 * s.len() <= b.len(),
        b.subrange(i, i + 4 + 1 * s.len()) == enc_vec_u8(s),
    ensures
        dec_vec_u8(b, i) == Some((s, i + 4 + 1 * s.len())),
{
    assert(forall|x: u8| (#[trigger] (enc_u8f())(x)).len() == 1);
    lemma_enc_seq_len(s, enc_u8f(), 1);
    lemma_subrange_concat(b, i, enc32(s.len() as u32), enc_seq(s, enc_u8f()));
    lemma_dec32_enc32(s.len() as u32, b, i);
    lemma_dec_n_enc_u8(s, b, i + 4);
    assert((s.len() as u32) as nat == s.len());
}

/// A length-prefixed vector of `i8` elements decodes back in place.
#[verifier::rlimit(50)]
pub proof fn lemma_dec_vec_enc_vec_i8_at(s: Seq<i8>, b: Seq<u8>, i: int)
    requires
        s.len() <= u32::MAX,
        0 <= i,
        i + 4 + 1 * s.len() <= b.len(),
        b.subrange(i, i + 4 + 1 * s.len()) == enc_vec_i8(s),
    ensures
        dec_vec_i8(b, i) == Some((s, i + 4 + 1 * s.len())),
{
    assert(forall|x: i8| (#[trigger] (enc_i8f())(x)).len() == 1);
    lemma_enc_seq_len(s, enc_i8f(), 1);
    lemma_subrange_concat(b, i, enc32(s.len() as u32), enc_seq(s, enc_i8f()));
    lemma_dec32_enc32(s.len() as u32, b, i);
    lemma_dec_n_enc_i8(s, b, i + 4);
    assert((s.len() as u32) as nat == s.len());
}

/// A length-prefixed vector of `u16` elements decodes back in place.
#[verifier::rlimit(50)]
pub proof fn lemma_dec_vec_enc_vec_u16_at(s: Seq<u16>, b: Seq<u8>, i: int)
    requires
        s.len() <= u32::MAX,
        0 <= i,
        i + 4 + 2 * s.len() <= b.len(),
        b.subrange(i, i + 4 + 2 * s.len()) == enc_vec_u16(s),
    ensures
        dec_vec_u16(b, i) == Some((s, i + 4 + 2 * s.len())),
{
    assert(forall|x: u16| (#[trigger] (enc_u16f())(x)).len() == 2);
    lemma_enc_seq_len(s, enc_u16f(), 2);
    lemma_subrange_concat(b, i, enc32(s.len() as u32), enc_seq(s, enc_u16f()));
    lemma_dec32_enc32(s.len() as u32, b, i);
    lemma_dec_n_enc_u16(s, b, i + 4);
    assert((s.len() as u32) as nat == s.len());
}

/// A length-prefixed vector of `i16` elements decodes back in place.
#[verifier::rlimit(50)]
pub proof fn lemma_dec_vec_enc_vec_i16_at(s: Seq<i16>, b: Seq<u8>, i: int)
    requires
        s.len() <= u32::MAX,
        0 <= i,
        i + 4 + 2 * s.len() <= b.len(),
        b.subrange(i, i + 4 + 2 * s.len()) == enc_vec_i16(s),
    ensures
        dec_vec_i16(b, i) == Some((s, i + 4 + 2 * s.len())),
{
    assert(forall|x: i16| (#[trigger] (enc_i16f())(x)).len() == 2);
    lemma_enc_seq_len(s, enc_i16f(), 2);
    lemma_subrange_concat(b, i, enc32(s.len() as u32), enc_seq(s, enc_i16f()));
    lemma_dec32_enc32(s.len() as u32, b, i);
    lemma_dec_n_enc_i16(s, b, i + 4);
    assert((s.len() as u32) as nat == s.len());
}

/// A length-prefixed vector of `u32` elements decodes back in place.
#[verifier::rlimit(50)]
pub proof fn lemma_dec_vec_enc_vec_u32_at(s: Seq<u32>, b: Seq<u8>, i: int)
    requires
        s.len() <= u32::MAX,
        0 <= i,
        i + 4 + 4 * s.len() <= b.len(),
        b.subrange(i, i + 4 + 4 * s.len()) == enc_vec_u32(s),
    ensures
        dec_vec_u32(b, i) == Some((s, i + 4 + 4 * s.len())),
{
    assert(forall|x: u32| (#[trigger] (enc_u32f())(x)).len() == 4);
    lemma_enc_seq_len(s, enc_u32f(), 4);
    lemma_subrange_concat(b, i, enc32(s.len() as u32), enc_seq(s, enc_u32f()));
    lemma_dec32_enc32(s.len() as u32, b, i);
    lemma_dec_n_enc_u32(s, b, i + 4);
    assert((s.len() as u32) as nat == s.len());
}

/// A length-prefixed vector of `i32` elements decodes back in place.
#[verifier::rlimit(50)]
pub proof fn lemma_dec_vec_enc_vec_i32_at(s: Seq<i32>, b: Seq<u8>, i: int)
    requires
        s.len() <= u32::MAX,
        0 <= i,
        i + 4 + 4 * s.len() <= b.len(),
        b.subrange(i, i + 4 + 4 * s.len()) == enc_vec_i32(s),
    ensures
        dec_vec_i32(b, i) == Some((s, i + 4 + 4 * s.len())),
{
    assert(forall|x: i32| (#[trigger] (enc_i32f())(x)).len() == 4);
    lemma_enc_seq_len(s, enc_i32f(), 4);
    lemma_subrange_concat(b, i, enc32(s.len() as u32), enc_seq(s, enc_i32f()));
    lemma_dec32_enc32(s.len() as u32, b, i);
    lemma_dec_n_enc_i32(s, b, i + 4);
    assert((s.len() as u32) as nat == s.len());
}

/// A length-prefixed vector of `u64` elements decodes back in place.
#[verifier::rlimit(50)]
pub proof fn lemma_dec_vec_enc_vec_u64_at(s: Seq<u64>, b: Seq<u8>, i: int)
    requires
        s.len() <= u32::MAX,
        0 <= i,
        i + 4 + 8 * s.len() <= b.len(),
        b.subrange(i, i + 4 + 8 * s.len()) == enc_vec_u64(s),
    ensures
        dec_vec_u64(b, i) == Some((s, i + 4 + 8 * s.len())),
{
    assert(forall|x: u64| (#[trigger] (enc_u64f())(x)).len() == 8);
    lemma_enc_seq_len(s, enc_u64f(), 8);
    lemma_subrange_concat(b, i, enc32(s.len() as u32), enc_seq(s, enc_u64f()));
    lemma_dec32_enc32(s.len() as u32, b, i);
    lemma_dec_n_enc_u64(s, b, i + 4);
    assert((s.len() as u32) as nat == s.len());
}

/// A length-prefixed vector of `i64` elements decodes back in place.
#[verifier::rlimit(50)]
pub proof fn lemma_dec_vec_enc_vec_i64_at(s: Seq<i64>, b: Seq<u8>, i: int)
    requires
        s.len() <= u32::MAX,
        0 <= i,
        i + 4 + 8 * s.len() <= b.len(),
        b.subrange(i, i + 4 + 8 * s.len()) == enc_vec_i64(s),
    ensures
        dec_vec_i64(b, i) == Some((s, i + 4 + 8 * s.len())),
{
    assert(forall|x: i64| (#[trigger] (enc_i64f())(x)).len() == 8);
    lemma_enc_seq_len(s, enc_i64f(), 8);
    lemma_subrange_concat(b, i, enc32(s.len() as u32), enc_seq(s, enc_i64f()));
    lemma_dec32_enc32(s.len() as u32, b, i);
    lemma_dec_n_enc_i64(s, b, i + 4);
    assert((s.len() as u32) as nat == s.len());
}

/// A length-prefixed vector of `u128` elements decodes back in place.
#[verifier::rlimit(50)]
pub proof fn lemma_dec_vec_enc_vec_u128_at(s: Seq<(u64, u64)>, b: Seq<u8>, i: int)
    requires
        s.len() <= u32::MAX,
        0 <= i,
        i + 4 + 16 * s.len() <= b.len(),
        b.subrange(i, i + 4 + 16 * s.len()) == enc_vec_u128(s),
    ensures
        dec_vec_u128(b, i) == Some((s, i + 4 + 16 * s.len())),
{
    assert(forall|x: (u64, u64)| (#[trigger] (enc_u128f())(x)).len() == 16);
    lemma_enc_seq_len(s, enc_u128f(), 16);
    lemma_subrange_concat(b, i, enc32(s.len() as u32), enc_seq(s, enc_u128f()));
    lemma_dec32_enc32(s.len() as u32, b, i);
    lemma_dec_n_enc_u128(s, b, i + 4);
    assert((s.len() as u32) as nat == s.len());
}

/// A length-prefixed vector of `i128` elements decodes back in place.
#[verifier::rlimit(50)]
pub proof fn lemma_dec_vec_enc_vec_i128_at(s: Seq<(u64, u64)>, b: Seq<u8>, i: int)
    requires
        s.len() <= u32::MAX,
        0 <= i,
        i + 4 + 16 * s.len() <= b.len(),
        b.subrange(i, i + 4 + 16 * s.len()) == enc_vec_i128(s),
    ensures
        dec_vec_i128(b, i) == Some((s, i + 4 + 16 * s.len())),
{
    assert(forall|x: (u64, u64)| (#[trigger] (enc_i128f())(x)).len() == 16);
    lemma_enc_seq_len(s, enc_i128f(), 16);
    lemma_subrange_concat(b, i, enc32(s.len() as u32), enc_seq(s, enc_i128f()));
    lemma_dec32_enc32(s.len() as u32, b, i);
    lemma_dec_n_enc_i128(s, b, i + 4);
    assert((s.len() as u32) as nat == s.len());
}

/// An encoded PTP string decodes back in place.
#[verifier::rlimit(100)]
pub proof fn lemma_dec_str_enc_str_at(s: Seq<char>, b: Seq<u8>, i: int)
    requires
        utf16(s).len() <= 127,
        0 <= i,
        i + enc_str(s).len() <= b.len(),
        b.subrange(i, i + enc_str(s).len()) == enc_str(s),
    ensures
        dec_str(b, i) == Some((s, i + enc_str(s).len())),
{
    let u = utf16(s);
    lemma_utf16_round_trip(s);
    assert(forall|x: u16| (#[trigger] (enc_u16f())(x)).len() == 2);
    lemma_enc_seq_len(u, enc_u16f(), 2);
    if u.len() == 0 {
        lemma_utf16_empty(s);
        assert(s =~= Seq::<char>::empty());
        assert(b.subrange(i, i + 1)[0] == b[i]);
        assert(b[i] == 0u8);
        assert(dec8(b, i) == Some((0u8, i + 1)));
        assert(utf16_to_chars(Seq::<u16>::empty()) == Some(Seq::<char>::empty()));
    } else {
        let n = (2 * u.len() + 1) as u8;
        assert(enc_str(s).len() == 3 + 2 * u.len());
        lemma_subrange_concat(b, i, seq![n] + enc_seq(u, enc_u16f()), seq![0u8, 0u8]);
        lemma_subrange_concat(b, i, seq![n], enc_seq(u, enc_u16f()));
        assert(b.subrange(i, i + 1)[0] == b[i]);
        assert(b[i] == n);
        assert(n as int == 2 * u.len() + 1);
        assert((n - 1) / 2 == u.len());
        lemma_dec_n_enc_u16(u, b, i + 1);
        let t = i + 1 + 2 * u.len() as int;
        assert(b.subrange(t, t + 2)[0] == b[t]);
        assert(b.subrange(t, t + 2)[1] == b[t + 1]);
        assert(b[t] == 0u8 && b[t + 1] == 0u8);
        assert(b.subrange(t, t + 2) =~= enc16(0u16));
        lemma_dec16_enc16(0u16, b, t);
    }
}

} // verus!
