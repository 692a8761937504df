//! The tagged PTP `Data` value: a discriminated union of the PTP primitive
//! types, their arrays, and strings.
//!
//! `Data::read_type` decodes a value by its 16-bit data-type tag and
//! `Data::encode` is its inverse (`UNDEF` encodes to nothing); both are
//! verified against the specification decoders [`data_dec`] and encoder
//! [`data_enc`], and [`lemma_data_round_trip`] states the round-trip law for
//! every well-formed value other than `UNDEF`.

use vstd::prelude::*;

use crate::error::Error;
use crate::error::IoErrorKind;
use crate::reader::Reader;
use crate::utf16::utf16;
use crate::wire::dec128;
use crate::wire::dec16;
use crate::wire::dec16i;
use crate::wire::dec32;
use crate::wire::dec32i;
use crate::wire::dec64;
use crate::wire::dec64i;
use crate::wire::dec8;
use crate::wire::dec8i;
use crate::wire::dec_str;
use crate::wire::dec_vec_u8;
use crate::wire::dec_vec_i8;
use crate::wire::dec_vec_u16;
use crate::wire::dec_vec_i16;
use crate::wire::dec_vec_u32;
use crate::wire::dec_vec_i32;
use crate::wire::dec_vec_u64;
use crate::wire::dec_vec_i64;
use crate::wire::dec_vec_u128;
use crate::wire::dec_vec_i128;
use crate::wire::enc128;
use crate::wire::enc16;
use crate::wire::enc16i;
use crate::wire::enc32;
use crate::wire::enc32i;
use crate::wire::enc64;
use crate::wire::enc64i;
use crate::wire::enc_str;
use crate::wire::enc_vec_u8;
use crate::wire::enc_vec_i8;
use crate::wire::enc_vec_u16;
use crate::wire::enc_vec_i16;
use crate::wire::enc_vec_u32;
use crate::wire::enc_vec_i32;
use crate::wire::enc_vec_u64;
use crate::wire::enc_vec_i64;
use crate::wire::enc_vec_u128;
use crate::wire::enc_vec_i128;
use crate::wire::lemma_dec128_enc128;
use crate::wire::lemma_dec16_enc16;
use crate::wire::lemma_dec16i_enc16i;
use crate::wire::lemma_dec32_enc32;
use crate::wire::lemma_dec32i_enc32i;
use crate::wire::lemma_dec64_enc64;
use crate::wire::lemma_dec64i_enc64i;
use crate::wire::lemma_dec8i_enc8i;
use crate::wire::lemma_dec_str_enc_str;
use crate::wire::lemma_dec_vec_enc_vec_u8;
use crate::wire::lemma_dec_vec_enc_vec_i8;
use crate::wire::lemma_dec_vec_enc_vec_u16;
use crate::wire::lemma_dec_vec_enc_vec_i16;
use crate::wire::lemma_dec_vec_enc_vec_u32;
use crate::wire::lemma_dec_vec_enc_vec_i32;
use crate::wire::lemma_dec_vec_enc_vec_u64;
use crate::wire::lemma_dec_vec_enc_vec_i64;
use crate::wire::lemma_dec_vec_enc_vec_u128;
use crate::wire::lemma_dec_vec_enc_vec_i128;
use crate::writer::Writer;

verus! {

/// A PTP data value.  128-bit values are carried as a `(lo, hi)` pair of
/// `u64`s and serialized low half first; arrays are `u32`-length-prefixed.
#[allow(non_camel_case_types)]
pub enum Data {
    UNDEF,
    INT8(i8),
    UINT8(u8),
    INT16(i16),
    UINT16(u16),
    INT32(i32),
    UINT32(u32),
    INT64(i64),
    UINT64(u64),
    INT128((u64, u64)),
    UINT128((u64, u64)),
    AINT8(Vec<i8>),
    AUINT8(Vec<u8>),
    AINT16(Vec<i16>),
    AUINT16(Vec<u16>),
    AINT32(Vec<i32>),
    AUINT32(Vec<u32>),
    AINT64(Vec<i64>),
    AUINT64(Vec<u64>),
    AINT128(Vec<(u64, u64)>),
    AUINT128(Vec<(u64, u64)>),
    STR(String),
}

/// The mathematical view of a [`Data`] value: arrays become sequences and
/// strings become character sequences.
#[allow(non_camel_case_types)]
pub enum DataView {
    UNDEF,
    INT8(i8),
    UINT8(u8),
    INT16(i16),
    UINT16(u16),
    INT32(i32),
    UINT32(u32),
    INT64(i64),
    UINT64(u64),
    INT128((u64, u64)),
    UINT128((u64, u64)),
    AINT8(Seq<i8>),
    AUINT8(Seq<u8>),
    AINT16(Seq<i16>),
    AUINT16(Seq<u16>),
    AINT32(Seq<i32>),
    AUINT32(Seq<u32>),
    AINT64(Seq<i64>),
    AUINT64(Seq<u64>),
    AINT128(Seq<(u64, u64)>),
    AUINT128(Seq<(u64, u64)>),
    STR(Seq<char>),
}

impl View for Data {
    type V = DataView;

    open spec fn view(&self) -> DataView {
        match self {
            Data::UNDEF => DataView::UNDEF,
            Data::INT8(v) => DataView::INT8(*v),
            Data::UINT8(v) => DataView::UINT8(*v),
            Data::INT16(v) => DataView::INT16(*v),
            Data::UINT16(v) => DataView::UINT16(*v),
            Data::INT32(v) => DataView::INT32(*v),
            Data::UINT32(v) => DataView::UINT32(*v),
            Data::INT64(v) => DataView::INT64(*v),
            Data::UINT64(v) => DataView::UINT64(*v),
            Data::INT128(v) => DataView::INT128(*v),
            Data::UINT128(v) => DataView::UINT128(*v),
            Data::AINT8(v) => DataView::AINT8(v@),
            Data::AUINT8(v) => DataView::AUINT8(v@),
            Data::AINT16(v) => DataView::AINT16(v@),
            Data::AUINT16(v) => DataView::AUINT16(v@),
            Data::AINT32(v) => DataView::AINT32(v@),
            Data::AUINT32(v) => DataView::AUINT32(v@),
            Data::AINT64(v) => DataView::AINT64(v@),
            Data::AUINT64(v) => DataView::AUINT64(v@),
            Data::AINT128(v) => DataView::AINT128(v@),
            Data::AUINT128(v) => DataView::AUINT128(v@),
            Data::STR(v) => DataView::STR(v@),
        }
    }
}

impl DeepView for Data {
    type V = DataView;

    open spec fn deep_view(&self) -> DataView {
        self.view()
    }
}

impl DataView {
    /// The 16-bit PTP data-type tag of this variant (0 for `UNDEF`).
    pub open spec fn tag(self) -> u16 {
        match self {
            DataView::UNDEF => 0x0000,
            DataView::INT8(_) => 0x0001,
            DataView::UINT8(_) => 0x0002,
            DataView::INT16(_) => 0x0003,
            DataView::UINT16(_) => 0x0004,
            DataView::INT32(_) => 0x0005,
            DataView::UINT32(_) => 0x0006,
            DataView::INT64(_) => 0x0007,
            DataView::UINT64(_) => 0x0008,
            DataView::INT128(_) => 0x0009,
            DataView::UINT128(_) => 0x000A,
            DataView::AINT8(_) => 0x4001,
            DataView::AUINT8(_) => 0x4002,
            DataView::AINT16(_) => 0x4003,
            DataView::AUINT16(_) => 0x4004,
            DataView::AINT32(_) => 0x4005,
            DataView::AUINT32(_) => 0x4006,
            DataView::AINT64(_) => 0x4007,
            DataView::AUINT64(_) => 0x4008,
            DataView::AINT128(_) => 0x4009,
            DataView::AUINT128(_) => 0x400A,
            DataView::STR(_) => 0xFFFF,
        }
    }

    /// A value is well formed when its size fits the wire format: an array
    /// length must fit the `u32` count prefix, and a string must fit the
    /// length byte (at most 127 UTF-16 code units).
    pub open spec fn wf(self) -> bool {
        match self {
            DataView::AINT8(s) => s.len() <= u32::MAX,
            DataView::AUINT8(s) => s.len() <= u32::MAX,
            DataView::AINT16(s) => s.len() <= u32::MAX,
            DataView::AUINT16(s) => s.len() <= u32::MAX,
            DataView::AINT32(s) => s.len() <= u32::MAX,
            DataView::AUINT32(s) => s.len() <= u32::MAX,
            DataView::AINT64(s) => s.len() <= u32::MAX,
            DataView::AUINT64(s) => s.len() <= u32::MAX,
            DataView::AINT128(s) => s.len() <= u32::MAX,
            DataView::AUINT128(s) => s.len() <= u32::MAX,
            DataView::STR(s) => utf16(s).len() <= 127,
            _ => true,
        }
    }
}

/// The wire encoding of a data value; `UNDEF` encodes to no bytes at all.
pub open spec fn data_enc(d: DataView) -> Seq<u8>
    recommends
        d.wf(),
{
    match d {
        DataView::UNDEF => Seq::<u8>::empty(),
        DataView::INT8(v) => seq![v as u8],
        DataView::UINT8(v) => seq![v],
        DataView::INT16(v) => enc16i(v),
        DataView::UINT16(v) => enc16(v),
        DataView::INT32(v) => enc32i(v),
        DataView::UINT32(v) => enc32(v),
        DataView::INT64(v) => enc64i(v),
        DataView::UINT64(v) => enc64(v),
        DataView::INT128(v) => enc128(v),
        DataView::UINT128(v) => enc128(v),
        DataView::AINT8(s) => enc_vec_i8(s),
        DataView::AUINT8(s) => enc_vec_u8(s),
        DataView::AINT16(s) => enc_vec_i16(s),
        DataView::AUINT16(s) => enc_vec_u16(s),
        DataView::AINT32(s) => enc_vec_i32(s),
        DataView::AUINT32(s) => enc_vec_u32(s),
        DataView::AINT64(s) => enc_vec_i64(s),
        DataView::AUINT64(s) => enc_vec_u64(s),
        DataView::AINT128(s) => enc_vec_i128(s),
        DataView::AUINT128(s) => enc_vec_u128(s),
        DataView::STR(s) => enc_str(s),
    }
}

/// Decode a data value by its 16-bit tag at position `i`: an unrecognized
/// tag is `UNDEF` and consumes nothing.
pub open spec fn data_dec(kind: u16, b: Seq<u8>, i: int) -> Option<(DataView, int)> {
    if kind == 0x0001 {
        match dec8i(b, i) {
            Some((v, j)) => Some((DataView::INT8(v), j)),
            None => None,
        }
    } else if kind == 0x0002 {
        match dec8(b, i) {
            Some((v, j)) => Some((DataView::UINT8(v), j)),
            None => None,
        }
    } else if kind == 0x0003 {
        match dec16i(b, i) {
            Some((v, j)) => Some((DataView::INT16(v), j)),
            None => None,
        }
    } else if kind == 0x0004 {
        match dec16(b, i) {
            Some((v, j)) => Some((DataView::UINT16(v), j)),
            None => None,
        }
    } else if kind == 0x0005 {
        match dec32i(b, i) {
            Some((v, j)) => Some((DataView::INT32(v), j)),
            None => None,
        }
    } else if kind == 0x0006 {
        match dec32(b, i) {
            Some((v, j)) => Some((DataView::UINT32(v), j)),
            None => None,
        }
    } else if kind == 0x0007 {
        match dec64i(b, i) {
            Some((v, j)) => Some((DataView::INT64(v), j)),
            None => None,
        }
    } else if kind == 0x0008 {
        match dec64(b, i) {
            Some((v, j)) => Some((DataView::UINT64(v), j)),
            None => None,
        }
    } else if kind == 0x0009 {
        match dec128(b, i) {
            Some((v, j)) => Some((DataView::INT128(v), j)),
            None => None,
        }
    } else if kind == 0x000A {
        match dec128(b, i) {
            Some((v, j)) => Some((DataView::UINT128(v), j)),
            None => None,
        }
    } else if kind == 0x4001 {
        match dec_vec_i8(b, i) {
            Some((s, j)) => Some((DataView::AINT8(s), j)),
            None => None,
        }
    } else if kind == 0x4002 {
        match dec_vec_u8(b, i) {
            Some((s, j)) => Some((DataView::AUINT8(s), j)),
            None => None,
        }
    } else if kind == 0x4003 {
        match dec_vec_i16(b, i) {
            Some((s, j)) => Some((DataView::AINT16(s), j)),
            None => None,
        }
    } else if kind == 0x4004 {
        match dec_vec_u16(b, i) {
            Some((s, j)) => Some((DataView::AUINT16(s), j)),
            None => None,
        }
    } else if kind == 0x4005 {
        match dec_vec_i32(b, i) {
            Some((s, j)) => Some((DataView::AINT32(s), j)),
            None => None,
        }
    } else if kind == 0x4006 {
        match dec_vec_u32(b, i) {
            Some((s, j)) => Some((DataView::AUINT32(s), j)),
            None => None,
        }
    } else if kind == 0x4007 {
        match dec_vec_i64(b, i) {
            Some((s, j)) => Some((DataView::AINT64(s), j)),
            None => None,
        }
    } else if kind == 0x4008 {
        match dec_vec_u64(b, i) {
            Some((s, j)) => Some((DataView::AUINT64(s), j)),
            None => None,
        }
    } else if kind == 0x4009 {
        match dec_vec_i128(b, i) {
            Some((s, j)) => Some((DataView::AINT128(s), j)),
            None => None,
        }
    } else if kind == 0x400A {
        match dec_vec_u128(b, i) {
            Some((s, j)) => Some((DataView::AUINT128(s), j)),
            None => None,
        }
    } else if kind == 0xFFFF {
        match dec_str(b, i) {
            Some((s, j)) => Some((DataView::STR(s), j)),
            None => None,
        }
    } else {
        Some((DataView::UNDEF, i))
    }
}

impl Data {
    /// Encode this value in the PTP wire format; `UNDEF` emits no bytes.
    pub fn encode(&self) -> (r: Vec<u8>)
        requires
            self@.wf(),
        ensures
            r@ == data_enc(self@),
    {
        let mut w = Writer::new();
        match self {
            Data::UNDEF => {},
            Data::INT8(v) => {
                w.write_ptp_i8(*v);
            },
            Data::UINT8(v) => {
                w.write_ptp_u8(*v);
            },
            Data::INT16(v) => {
                w.write_ptp_i16(*v);
            },
            Data::UINT16(v) => {
                w.write_ptp_u16(*v);
            },
            Data::INT32(v) => {
                w.write_ptp_i32(*v);
            },
            Data::UINT32(v) => {
                w.write_ptp_u32(*v);
            },
            Data::INT64(v) => {
                w.write_ptp_i64(*v);
            },
            Data::UINT64(v) => {
                w.write_ptp_u64(*v);
            },
            Data::INT128(v) => {
                w.write_ptp_i128(*v);
            },
            Data::UINT128(v) => {
                w.write_ptp_u128(*v);
            },
            Data::AINT8(v) => {
                w.write_ptp_i8_vec(v.as_slice());
            },
            Data::AUINT8(v) => {
                w.write_ptp_u8_vec(v.as_slice());
            },
            Data::AINT16(v) => {
                w.write_ptp_i16_vec(v.as_slice());
            },
            Data::AUINT16(v) => {
                w.write_ptp_u16_vec(v.as_slice());
            },
            Data::AINT32(v) => {
                w.write_ptp_i32_vec(v.as_slice());
            },
            Data::AUINT32(v) => {
                w.write_ptp_u32_vec(v.as_slice());
            },
            Data::AINT64(v) => {
                w.write_ptp_i64_vec(v.as_slice());
            },
            Data::AUINT64(v) => {
                w.write_ptp_u64_vec(v.as_slice());
            },
            Data::AINT128(v) => {
                w.write_ptp_i128_vec(v.as_slice());
            },
            Data::AUINT128(v) => {
                w.write_ptp_u128_vec(v.as_slice());
            },
            Data::STR(v) => {
                w.write_ptp_str(v.as_str());
            },
        }
        proof {
            assert(w.bytes() =~= data_enc(self@));
        }
        w.into_vec()
    }

    /// Decode a data value with the given 16-bit type tag from the reader.
    /// The reader is left unmoved on failure; an unrecognized tag yields
    /// `UNDEF` and consumes nothing.
    pub fn read_type(kind: u16, reader: &mut Reader) -> (r: Result<Data, Error>)
        requires
            old(reader).wf(),
        ensures
            final(reader).wf(),
            final(reader).bytes() == old(reader).bytes(),
            match r {
                Ok(d) => data_dec(kind, old(reader).bytes(), old(reader).position()) == Some(
                    (d@, final(reader).position()),
                ),
                Err(e) => data_dec(kind, old(reader).bytes(), old(reader).position()) is None
                    && final(reader).position() == old(reader).position() && (e == Error::Io(
                    IoErrorKind::UnexpectedEof,
                ) || (e matches Error::Malformed(m) && m@ == "invalid utf16 data"@)),
            },
    {
        match kind {
            0x0001 => match reader.read_ptp_i8() {
                Ok(v) => Ok(Data::INT8(v)),
                Err(e) => Err(e),
            },
            0x0002 => match reader.read_ptp_u8() {
                Ok(v) => Ok(Data::UINT8(v)),
                Err(e) => Err(e),
            },
            0x0003 => match reader.read_ptp_i16() {
                Ok(v) => Ok(Data::INT16(v)),
                Err(e) => Err(e),
            },
            0x0004 => match reader.read_ptp_u16() {
                Ok(v) => Ok(Data::UINT16(v)),
                Err(e) => Err(e),
            },
            0x0005 => match reader.read_ptp_i32() {
                Ok(v) => Ok(Data::INT32(v)),
                Err(e) => Err(e),
            },
            0x0006 => match reader.read_ptp_u32() {
                Ok(v) => Ok(Data::UINT32(v)),
                Err(e) => Err(e),
            },
            0x0007 => match reader.read_ptp_i64() {
                Ok(v) => Ok(Data::INT64(v)),
                Err(e) => Err(e),
            },
            0x0008 => match reader.read_ptp_u64() {
                Ok(v) => Ok(Data::UINT64(v)),
                Err(e) => Err(e),
            },
            0x0009 => match reader.read_ptp_i128() {
                Ok(v) => Ok(Data::INT128(v)),
                Err(e) => Err(e),
            },
            0x000A => match reader.read_ptp_u128() {
                Ok(v) => Ok(Data::UINT128(v)),
                Err(e) => Err(e),
            },
            0x4001 => match reader.read_ptp_i8_vec() {
                Ok(v) => Ok(Data::AINT8(v)),
                Err(e) => Err(e),
            },
            0x4002 => match reader.read_ptp_u8_vec() {
                Ok(v) => Ok(Data::AUINT8(v)),
                Err(e) => Err(e),
            },
            0x4003 => match reader.read_ptp_i16_vec() {
                Ok(v) => Ok(Data::AINT16(v)),
                Err(e) => Err(e),
            },
            0x4004 => match reader.read_ptp_u16_vec() {
                Ok(v) => Ok(Data::AUINT16(v)),
                Err(e) => Err(e),
            },
            0x4005 => match reader.read_ptp_i32_vec() {
                Ok(v) => Ok(Data::AINT32(v)),
                Err(e) => Err(e),
            },
            0x4006 => match reader.read_ptp_u32_vec() {
                Ok(v) => Ok(Data::AUINT32(v)),
                Err(e) => Err(e),
            },
            0x4007 => match reader.read_ptp_i64_vec() {
                Ok(v) => Ok(Data::AINT64(v)),
                Err(e) => Err(e),
            },
            0x4008 => match reader.read_ptp_u64_vec() {
                Ok(v) => Ok(Data::AUINT64(v)),
                Err(e) => Err(e),
            },
            0x4009 => match reader.read_ptp_i128_vec() {
                Ok(v) => Ok(Data::AINT128(v)),
                Err(e) => Err(e),
            },
            0x400A => match reader.read_ptp_u128_vec() {
                Ok(v) => Ok(Data::AUINT128(v)),
                Err(e) => Err(e),
            },
            0xFFFF => match reader.read_ptp_str() {
                Ok(v) => Ok(Data::STR(v)),
                Err(e) => Err(e),
            },
            _ => Ok(Data::UNDEF),
        }
    }

    /// The signed 64-bit value of this variant, for the integer variants
    /// that widen into an `i64` (unsigned ones up to 32 bits only).
    pub fn to_i64(&self) -> (r: Option<i64>)
        ensures
            r == data_to_i64(self@),
    {
        match self {
            Data::INT8(v) => Some(*v as i64),
            Data::UINT8(v) => Some(*v as i64),
            Data::INT16(v) => Some(*v as i64),
            Data::UINT16(v) => Some(*v as i64),
            Data::INT32(v) => Some(*v as i64),
            Data::UINT32(v) => Some(*v as i64),
            Data::INT64(v) => Some(*v),
            _ => None,
        }
    }

    /// The unsigned 64-bit value of this variant, for the unsigned integer
    /// variants up to 64 bits.
    pub fn to_u64(&self) -> (r: Option<u64>)
        ensures
            r == data_to_u64(self@),
    {
        match self {
            Data::UINT8(v) => Some(*v as u64),
            Data::UINT16(v) => Some(*v as u64),
            Data::UINT32(v) => Some(*v as u64),
            Data::UINT64(v) => Some(*v),
            _ => None,
        }
    }
}

/// The signed 64-bit projection: defined for the signed variants and for
/// the unsigned ones below 64 bits, never for 64-bit unsigned or 128-bit
/// values.
pub open spec fn data_to_i64(d: DataView) -> Option<i64> {
    match d {
        DataView::INT8(v) => Some(v as i64),
        DataView::UINT8(v) => Some(v as i64),
        DataView::INT16(v) => Some(v as i64),
        DataView::UINT16(v) => Some(v as i64),
        DataView::INT32(v) => Some(v as i64),
        DataView::UINT32(v) => Some(v as i64),
        DataView::INT64(v) => Some(v),
        _ => None,
    }
}

/// The unsigned 64-bit projection: defined only for the unsigned integer
/// variants.
pub open spec fn data_to_u64(d: DataView) -> Option<u64> {
    match d {
        DataView::UINT8(v) => Some(v as u64),
        DataView::UINT16(v) => Some(v as u64),
        DataView::UINT32(v) => Some(v as u64),
        DataView::UINT64(v) => Some(v),
        _ => None,
    }
}

/// The data decoder for a fixed tag, as a first-class function.
pub open spec fn data_decf(kind: u16) -> spec_fn(Seq<u8>, int) -> Option<(DataView, int)> {
    |b: Seq<u8>, i: int| data_dec(kind, b, i)
}

/// Every well-formed data value other than `UNDEF` decodes back from its
/// encoding under its own tag, consuming the whole encoding.
#[verifier::rlimit(100)]
pub proof fn lemma_data_round_trip(d: DataView)
    requires
        d.wf(),
        !(d is UNDEF),
    ensures
        data_dec(d.tag(), data_enc(d), 0) == Some((d, data_enc(d).len() as int)),
{
    let b = data_enc(d);
    match d {
        DataView::UNDEF => {},
        DataView::INT8(v) => {
            assert(b.subrange(0, 1) =~= seq![v as u8]);
            lemma_dec8i_enc8i(v, b, 0);
        },
        DataView::UINT8(v) => {
            assert(dec8(b, 0) == Some((v, 1int)));
        },
        DataView::INT16(v) => {
            assert(b.subrange(0, 2) =~= enc16i(v));
            lemma_dec16i_enc16i(v, b, 0);
        },
        DataView::UINT16(v) => {
            assert(b.subrange(0, 2) =~= enc16(v));
            lemma_dec16_enc16(v, b, 0);
        },
        DataView::INT32(v) => {
            assert(b.subrange(0, 4) =~= enc32i(v));
            lemma_dec32i_enc32i(v, b, 0);
        },
        DataView::UINT32(v) => {
            assert(b.subrange(0, 4) =~= enc32(v));
            lemma_dec32_enc32(v, b, 0);
        },
        DataView::INT64(v) => {
            assert(b.subrange(0, 8) =~= enc64i(v));
            lemma_dec64i_enc64i(v, b, 0);
        },
        DataView::UINT64(v) => {
            assert(b.subrange(0, 8) =~= enc64(v));
            lemma_dec64_enc64(v, b, 0);
        },
        DataView::INT128(v) => {
            assert(b.subrange(0, 16) =~= enc128(v));
            lemma_dec128_enc128(v, b, 0);
        },
        DataView::UINT128(v) => {
            assert(b.subrange(0, 16) =~= enc128(v));
            lemma_dec128_enc128(v, b, 0);
        },
        DataView::AINT8(s) => {
            lemma_dec_vec_enc_vec_i8(s);
        },
        DataView::AUINT8(s) => {
            lemma_dec_vec_enc_vec_u8(s);
        },
        DataView::AINT16(s) => {
            lemma_dec_vec_enc_vec_i16(s);
        },
        DataView::AUINT16(s) => {
            lemma_dec_vec_enc_vec_u16(s);
        },
        DataView::AINT32(s) => {
            lemma_dec_vec_enc_vec_i32(s);
        },
        DataView::AUINT32(s) => {
            lemma_dec_vec_enc_vec_u32(s);
        },
        DataView::AINT64(s) => {
            lemma_dec_vec_enc_vec_i64(s);
        },
        DataView::AUINT64(s) => {
            lemma_dec_vec_enc_vec_u64(s);
        },
        DataView::AINT128(s) => {
            lemma_dec_vec_enc_vec_i128(s);
        },
        DataView::AUINT128(s) => {
            lemma_dec_vec_enc_vec_u128(s);
        },
        DataView::STR(s) => {
            lemma_dec_str_enc_str(s);
        },
    }
}

impl From<i8> for Data {
    fn from(value: i8) -> (r: Data) {
        Data::INT8(value)
    }
}

impl vstd::std_specs::convert::FromSpecImpl<i8> for Data {
    open spec fn obeys_from_spec() -> bool {
        true
    }

    open spec fn from_spec(value: i8) -> Data {
        Data::INT8(value)
    }
}

impl From<u8> for Data {
    fn from(value: u8) -> (r: Data) {
        Data::UINT8(value)
    }
}

impl vstd::std_specs::convert::FromSpecImpl<u8> for Data {
    open spec fn obeys_from_spec() -> bool {
        true
    }

    open spec fn from_spec(value: u8) -> Data {
        Data::UINT8(value)
    }
}

impl From<i16> for Data {
    fn from(value: i16) -> (r: Data) {
        Data::INT16(value)
    }
}

impl vstd::std_specs::convert::FromSpecImpl<i16> for Data {
    open spec fn obeys_from_spec() -> bool {
        true
    }

    open spec fn from_spec(value: i16) -> Data {
        Data::INT16(value)
    }
}

impl From<u16> for Data {
    fn from(value: u16) -> (r: Data) {
        Data::UINT16(value)
    }
}

impl vstd::std_specs::convert::FromSpecImpl<u16> for Data {
    open spec fn obeys_from_spec() -> bool {
        true
    }

    open spec fn from_spec(value: u16) -> Data {
        Data::UINT16(value)
    }
}

impl From<i32> for Data {
    fn from(value: i32) -> (r: Data) {
        Data::INT32(value)
    }
}

impl vstd::std_specs::convert::FromSpecImpl<i32> for Data {
    open spec fn obeys_from_spec() -> bool {
        true
    }

    open spec fn from_spec(value: i32) -> Data {
        Data::INT32(value)
    }
}

impl From<u32> for Data {
    fn from(value: u32) -> (r: Data) {
        Data::UINT32(value)
    }
}

impl vstd::std_specs::convert::FromSpecImpl<u32> for Data {
    open spec fn obeys_from_spec() -> bool {
        true
    }

    open spec fn from_spec(value: u32) -> Data {
        Data::UINT32(value)
    }
}

impl From<i64> for Data {
    fn from(value: i64) -> (r: Data) {
        Data::INT64(value)
    }
}

impl vstd::std_specs::convert::FromSpecImpl<i64> for Data {
    open spec fn obeys_from_spec() -> bool {
        true
    }

    open spec fn from_spec(value: i64) -> Data {
        Data::INT64(value)
    }
}

impl From<u64> for Data {
    fn from(value: u64) -> (r: Data) {
        Data::UINT64(value)
    }
}

impl vstd::std_specs::convert::FromSpecImpl<u64> for Data {
    open spec fn obeys_from_spec() -> bool {
        true
    }

    open spec fn from_spec(value: u64) -> Data {
        Data::UINT64(value)
    }
}

impl From<String> for Data {
    fn from(value: String) -> (r: Data) {
        Data::STR(value)
    }
}

impl vstd::std_specs::convert::FromSpecImpl<String> for Data {
    open spec fn obeys_from_spec() -> bool {
        true
    }

    open spec fn from_spec(value: String) -> Data {
        Data::STR(value)
    }
}

impl<'a> From<&'a str> for Data {
    fn from(value: &'a str) -> (r: Data) {
        Data::STR(value.to_owned())
    }
}

impl<'a> vstd::std_specs::convert::FromSpecImpl<&'a str> for Data {
    open spec fn obeys_from_spec() -> bool {
        false
    }

    open spec fn from_spec(value: &'a str) -> Data {
        arbitrary()
    }
}


/// The hexadecimal rendering of one 128-bit pair: thirty-two digits, high
/// half first.
pub open spec fn spec_hex_128(p: (u64, u64), upper: bool) -> Seq<char> {
    crate::hex::spec_hex_pad(p.1 as int, 16, upper) + crate::hex::spec_hex_pad(
        p.0 as int,
        16,
        upper,
    )
}

/// The concatenated hexadecimal digits of a sequence of values.
pub open spec fn hex_elems<T>(s: Seq<T>, f: spec_fn(T) -> Seq<char>) -> Seq<char> {
    s.flat_map(f)
}

/// The padded digits of one `i8` array element, as a first-class
/// function.
pub open spec fn hex_i8f(upper: bool) -> spec_fn(i8) -> Seq<char> {
    |x: i8| crate::hex::spec_hex_pad((x as u8) as int, 2, upper)
}

/// The padded digits of one `u8` array element, as a first-class
/// function.
pub open spec fn hex_u8f(upper: bool) -> spec_fn(u8) -> Seq<char> {
    |x: u8| crate::hex::spec_hex_pad(x as int, 2, upper)
}

/// The padded digits of one `i16` array element, as a first-class
/// function.
pub open spec fn hex_i16f(upper: bool) -> spec_fn(i16) -> Seq<char> {
    |x: i16| crate::hex::spec_hex_pad((x as u16) as int, 4, upper)
}

/// The padded digits of one `u16` array element, as a first-class
/// function.
pub open spec fn hex_u16f(upper: bool) -> spec_fn(u16) -> Seq<char> {
    |x: u16| crate::hex::spec_hex_pad(x as int, 4, upper)
}

/// The padded digits of one `i32` array element, as a first-class
/// function.
pub open spec fn hex_i32f(upper: bool) -> spec_fn(i32) -> Seq<char> {
    |x: i32| crate::hex::spec_hex_pad((x as u32) as int, 8, upper)
}

/// The padded digits of one `u32` array element, as a first-class
/// function.
pub open spec fn hex_u32f(upper: bool) -> spec_fn(u32) -> Seq<char> {
    |x: u32| crate::hex::spec_hex_pad(x as int, 8, upper)
}

/// The padded digits of one `i64` array element, as a first-class
/// function.
pub open spec fn hex_i64f(upper: bool) -> spec_fn(i64) -> Seq<char> {
    |x: i64| crate::hex::spec_hex_pad((x as u64) as int, 16, upper)
}

/// The padded digits of one `u64` array element, as a first-class
/// function.
pub open spec fn hex_u64f(upper: bool) -> spec_fn(u64) -> Seq<char> {
    |x: u64| crate::hex::spec_hex_pad(x as int, 16, upper)
}

/// The padded digits of one 128-bit array element, as a first-class
/// function.
pub open spec fn hex_128f(upper: bool) -> spec_fn((u64, u64)) -> Seq<char> {
    |x: (u64, u64)| spec_hex_128(x, upper)
}

/// The hexadecimal rendering of a data value: its variant name and its
/// contents as fixed-width hexadecimal digits, scalars with a `0x` prefix,
/// array elements run together, strings quoted verbatim.
pub open spec fn data_hex(d: DataView, upper: bool) -> Seq<char> {
    match d {
        DataView::UNDEF => "UNDEF"@,
        DataView::INT8(v) => "INT8(0x"@ + crate::hex::spec_hex_pad((v as u8) as int, 2, upper) + ")"@,
        DataView::UINT8(v) => "UINT8(0x"@ + crate::hex::spec_hex_pad(v as int, 2, upper) + ")"@,
        DataView::INT16(v) => "INT16(0x"@ + crate::hex::spec_hex_pad((v as u16) as int, 4, upper) + ")"@,
        DataView::UINT16(v) => "UINT16(0x"@ + crate::hex::spec_hex_pad(v as int, 4, upper) + ")"@,
        DataView::INT32(v) => "INT32(0x"@ + crate::hex::spec_hex_pad((v as u32) as int, 8, upper) + ")"@,
        DataView::UINT32(v) => "UINT32(0x"@ + crate::hex::spec_hex_pad(v as int, 8, upper) + ")"@,
        DataView::INT64(v) => "INT64(0x"@ + crate::hex::spec_hex_pad((v as u64) as int, 16, upper) + ")"@,
        DataView::UINT64(v) => "UINT64(0x"@ + crate::hex::spec_hex_pad(v as int, 16, upper) + ")"@,
        DataView::INT128(v) => "INT128(0x"@ + spec_hex_128(v, upper) + ")"@,
        DataView::UINT128(v) => "UINT128(0x"@ + spec_hex_128(v, upper) + ")"@,
        DataView::AINT8(s) => "AINT8("@ + hex_elems(s, hex_i8f(upper)) + ")"@,
        DataView::AUINT8(s) => "AUINT8("@ + hex_elems(s, hex_u8f(upper)) + ")"@,
        DataView::AINT16(s) => "AINT16("@ + hex_elems(s, hex_i16f(upper)) + ")"@,
        DataView::AUINT16(s) => "AUINT16("@ + hex_elems(s, hex_u16f(upper)) + ")"@,
        DataView::AINT32(s) => "AINT32("@ + hex_elems(s, hex_i32f(upper)) + ")"@,
        DataView::AUINT32(s) => "AUINT32("@ + hex_elems(s, hex_u32f(upper)) + ")"@,
        DataView::AINT64(s) => "AINT64("@ + hex_elems(s, hex_i64f(upper)) + ")"@,
        DataView::AUINT64(s) => "AUINT64("@ + hex_elems(s, hex_u64f(upper)) + ")"@,
        DataView::AINT128(s) => "AINT128("@ + hex_elems(s, hex_128f(upper)) + ")"@,
        DataView::AUINT128(s) => "AUINT128("@ + hex_elems(s, hex_128f(upper)) + ")"@,
        DataView::STR(s) => "STR(\""@ + s + "\")"@,
    }
}

impl Data {
    /// This value rendered with lowercase hexadecimal digits.
    pub fn hex_lower(&self) -> (r: String)
        ensures
            r@ == data_hex(self@, false),
    {
        self.hex_case(false)
    }

    /// This value rendered with uppercase hexadecimal digits.
    pub fn hex_upper(&self) -> (r: String)
        ensures
            r@ == data_hex(self@, true),
    {
        self.hex_case(true)
    }

    /// Render this value in the requested case.
    #[verifier::loop_isolation(false)]
    #[verifier::rlimit(100)]
    fn hex_case(&self, upper: bool) -> (r: String)
        ensures
            r@ == data_hex(self@, upper),
    {
        let mut s = String::new();
        match self {
            Data::UNDEF => {
                s.append("UNDEF");
            },
            Data::INT8(v) => {
                s.append("INT8(0x");
                s.append(crate::hex::hex_pad_u64((*v as u8) as u64, 2, upper).as_str());
                s.append(")");
            },
            Data::UINT8(v) => {
                s.append("UINT8(0x");
                s.append(crate::hex::hex_pad_u64(*v as u64, 2, upper).as_str());
                s.append(")");
            },
            Data::INT16(v) => {
                s.append("INT16(0x");
                s.append(crate::hex::hex_pad_u64((*v as u16) as u64, 4, upper).as_str());
                s.append(")");
            },
            Data::UINT16(v) => {
                s.append("UINT16(0x");
                s.append(crate::hex::hex_pad_u64(*v as u64, 4, upper).as_str());
                s.append(")");
            },
            Data::INT32(v) => {
                s.append("INT32(0x");
                s.append(crate::hex::hex_pad_u64((*v as u32) as u64, 8, upper).as_str());
                s.append(")");
            },
            Data::UINT32(v) => {
                s.append("UINT32(0x");
                s.append(crate::hex::hex_pad_u64(*v as u64, 8, upper).as_str());
                s.append(")");
            },
            Data::INT64(v) => {
                s.append("INT64(0x");
                s.append(crate::hex::hex_pad_u64(*v as u64, 16, upper).as_str());
                s.append(")");
            },
            Data::UINT64(v) => {
                s.append("UINT64(0x");
                s.append(crate::hex::hex_pad_u64(*v, 16, upper).as_str());
                s.append(")");
            },
            Data::INT128(v) => {
                s.append("INT128(0x");
                s.append(crate::hex::hex_pad_u64(v.1, 16, upper).as_str());
                s.append(crate::hex::hex_pad_u64(v.0, 16, upper).as_str());
                s.append(")");
            },
            Data::UINT128(v) => {
                s.append("UINT128(0x");
                s.append(crate::hex::hex_pad_u64(v.1, 16, upper).as_str());
                s.append(crate::hex::hex_pad_u64(v.0, 16, upper).as_str());
                s.append(")");
            },
            Data::AINT8(xs) => {
                s.append("AINT8(");
                let n = xs.len();
                proof {
                    assert(xs@.take(0).flat_map(hex_i8f(upper)) =~= Seq::<char>::empty());
                    assert(s@ =~= "AINT8("@ + hex_elems(xs@.take(0), hex_i8f(upper)));
                }
                let mut i: usize = 0;
                while i < n
                    invariant
                        0 <= i <= n,
                        n == xs@.len(),
                        s@ == "AINT8("@ + hex_elems(xs@.take(i as int), hex_i8f(upper)),
                    decreases n - i,
                {
                    let x = &xs[i];
                    s.append(crate::hex::hex_pad_u64((*x as u8) as u64, 2, upper).as_str());
                    proof {
                        xs@.lemma_flat_map_take_append(hex_i8f(upper), i as int);
                        assert(s@ =~= "AINT8("@ + hex_elems(
                            xs@.take(i as int + 1),
                            hex_i8f(upper),
                        ));
                    }
                    i = i + 1;
                }
                proof {
                    assert(xs@.take(n as int) =~= xs@);
                }
                s.append(")");
            },
            Data::AUINT8(xs) => {
                s.append("AUINT8(");
                let n = xs.len();
                proof {
                    assert(xs@.take(0).flat_map(hex_u8f(upper)) =~= Seq::<char>::empty());
                    assert(s@ =~= "AUINT8("@ + hex_elems(xs@.take(0), hex_u8f(upper)));
                }
                let mut i: usize = 0;
                while i < n
                    invariant
                        0 <= i <= n,
                        n == xs@.len(),
                        s@ == "AUINT8("@ + hex_elems(xs@.take(i as int), hex_u8f(upper)),
                    decreases n - i,
                {
                    let x = &xs[i];
                    s.append(crate::hex::hex_pad_u64(*x as u64, 2, upper).as_str());
                    proof {
                        xs@.lemma_flat_map_take_append(hex_u8f(upper), i as int);
                        assert(s@ =~= "AUINT8("@ + hex_elems(
                            xs@.take(i as int + 1),
                            hex_u8f(upper),
                        ));
                    }
                    i = i + 1;
                }
                proof {
                    assert(xs@.take(n as int) =~= xs@);
                }
                s.append(")");
            },
            Data::AINT16(xs) => {
                s.append("AINT16(");
                let n = xs.len();
                proof {
                    assert(xs@.take(0).flat_map(hex_i16f(upper)) =~= Seq::<char>::empty());
                    assert(s@ =~= "AINT16("@ + hex_elems(xs@.take(0), hex_i16f(upper)));
                }
                let mut i: usize = 0;
                while i < n
                    invariant
                        0 <= i <= n,
                        n == xs@.len(),
                        s@ == "AINT16("@ + hex_elems(xs@.take(i as int), hex_i16f(upper)),
                    decreases n - i,
                {
                    let x = &xs[i];
                    s.append(crate::hex::hex_pad_u64((*x as u16) as u64, 4, upper).as_str());
                    proof {
                        xs@.lemma_flat_map_take_append(hex_i16f(upper), i as int);
                        assert(s@ =~= "AINT16("@ + hex_elems(
                            xs@.take(i as int + 1),
                            hex_i16f(upper),
                        ));
                    }
                    i = i + 1;
                }
                proof {
                    assert(xs@.take(n as int) =~= xs@);
                }
                s.append(")");
            },
            Data::AUINT16(xs) => {
                s.append("AUINT16(");
                let n = xs.len();
                proof {
                    assert(xs@.take(0).flat_map(hex_u16f(upper)) =~= Seq::<char>::empty());
                    assert(s@ =~= "AUINT16("@ + hex_elems(xs@.take(0), hex_u16f(upper)));
                }
                let mut i: usize = 0;
                while i < n
                    invariant
                        0 <= i <= n,
                        n == xs@.len(),
                        s@ == "AUINT16("@ + hex_elems(xs@.take(i as int), hex_u16f(upper)),
                    decreases n - i,
                {
                    let x = &xs[i];
                    s.append(crate::hex::hex_pad_u64(*x as u64, 4, upper).as_str());
                    proof {
                        xs@.lemma_flat_map_take_append(hex_u16f(upper), i as int);
                        assert(s@ =~= "AUINT16("@ + hex_elems(
                            xs@.take(i as int + 1),
                            hex_u16f(upper),
                        ));
                    }
                    i = i + 1;
                }
                proof {
                    assert(xs@.take(n as int) =~= xs@);
                }
                s.append(")");
            },
            Data::AINT32(xs) => {
                s.append("AINT32(");
                let n = xs.len();
                proof {
                    assert(xs@.take(0).flat_map(hex_i32f(upper)) =~= Seq::<char>::empty());
                    assert(s@ =~= "AINT32("@ + hex_elems(xs@.take(0), hex_i32f(upper)));
                }
                let mut i: usize = 0;
                while i < n
                    invariant
                        0 <= i <= n,
                        n == xs@.len(),
                        s@ == "AINT32("@ + hex_elems(xs@.take(i as int), hex_i32f(upper)),
                    decreases n - i,
                {
                    let x = &xs[i];
                    s.append(crate::hex::hex_pad_u64((*x as u32) as u64, 8, upper).as_str());
                    proof {
                        xs@.lemma_flat_map_take_append(hex_i32f(upper), i as int);
                        assert(s@ =~= "AINT32("@ + hex_elems(
                            xs@.take(i as int + 1),
                            hex_i32f(upper),
                        ));
                    }
                    i = i + 1;
                }
                proof {
                    assert(xs@.take(n as int) =~= xs@);
                }
                s.append(")");
            },
            Data::AUINT32(xs) => {
                s.append("AUINT32(");
                let n = xs.len();
                proof {
                    assert(xs@.take(0).flat_map(hex_u32f(upper)) =~= Seq::<char>::empty());
                    assert(s@ =~= "AUINT32("@ + hex_elems(xs@.take(0), hex_u32f(upper)));
                }
                let mut i: usize = 0;
                while i < n
                    invariant
                        0 <= i <= n,
                        n == xs@.len(),
                        s@ == "AUINT32("@ + hex_elems(xs@.take(i as int), hex_u32f(upper)),
                    decreases n - i,
                {
                    let x = &xs[i];
                    s.append(crate::hex::hex_pad_u64(*x as u64, 8, upper).as_str());
                    proof {
                        xs@.lemma_flat_map_take_append(hex_u32f(upper), i as int);
                        assert(s@ =~= "AUINT32("@ + hex_elems(
                            xs@.take(i as int + 1),
                            hex_u32f(upper),
                        ));
                    }
                    i = i + 1;
                }
                proof {
                    assert(xs@.take(n as int) =~= xs@);
                }
                s.append(")");
            },
            Data::AINT64(xs) => {
                s.append("AINT64(");
                let n = xs.len();
                proof {
                    assert(xs@.take(0).flat_map(hex_i64f(upper)) =~= Seq::<char>::empty());
                    assert(s@ =~= "AINT64("@ + hex_elems(xs@.take(0), hex_i64f(upper)));
                }
                let mut i: usize = 0;
                while i < n
                    invariant
                        0 <= i <= n,
                        n == xs@.len(),
                        s@ == "AINT64("@ + hex_elems(xs@.take(i as int), hex_i64f(upper)),
                    decreases n - i,
                {
                    let x = &xs[i];
                    s.append(crate::hex::hex_pad_u64((*x as u64) as u64, 16, upper).as_str());
                    proof {
                        xs@.lemma_flat_map_take_append(hex_i64f(upper), i as int);
                        assert(s@ =~= "AINT64("@ + hex_elems(
                            xs@.take(i as int + 1),
                            hex_i64f(upper),
                        ));
                    }
                    i = i + 1;
                }
                proof {
                    assert(xs@.take(n as int) =~= xs@);
                }
                s.append(")");
            },
            Data::AUINT64(xs) => {
                s.append("AUINT64(");
                let n = xs.len();
                proof {
                    assert(xs@.take(0).flat_map(hex_u64f(upper)) =~= Seq::<char>::empty());
                    assert(s@ =~= "AUINT64("@ + hex_elems(xs@.take(0), hex_u64f(upper)));
                }
                let mut i: usize = 0;
                while i < n
                    invariant
                        0 <= i <= n,
                        n == xs@.len(),
                        s@ == "AUINT64("@ + hex_elems(xs@.take(i as int), hex_u64f(upper)),
                    decreases n - i,
                {
                    let x = &xs[i];
                    s.append(crate::hex::hex_pad_u64(*x, 16, upper).as_str());
                    proof {
                        xs@.lemma_flat_map_take_append(hex_u64f(upper), i as int);
                        assert(s@ =~= "AUINT64("@ + hex_elems(
                            xs@.take(i as int + 1),
                            hex_u64f(upper),
                        ));
                    }
                    i = i + 1;
                }
                proof {
                    assert(xs@.take(n as int) =~= xs@);
                }
                s.append(")");
            },
            Data::AINT128(xs) => {
                s.append("AINT128(");
                let n = xs.len();
                proof {
                    assert(xs@.take(0).flat_map(hex_128f(upper)) =~= Seq::<char>::empty());
                    assert(s@ =~= "AINT128("@ + hex_elems(xs@.take(0), hex_128f(upper)));
                }
                let mut i: usize = 0;
                while i < n
                    invariant
                        0 <= i <= n,
                        n == xs@.len(),
                        s@ == "AINT128("@ + hex_elems(xs@.take(i as int), hex_128f(upper)),
                    decreases n - i,
                {
                    let x = xs[i];
                    s.append(crate::hex::hex_pad_u64(x.1, 16, upper).as_str());
                    s.append(crate::hex::hex_pad_u64(x.0, 16, upper).as_str());
                    proof {
                        xs@.lemma_flat_map_take_append(hex_128f(upper), i as int);
                        assert(s@ =~= "AINT128("@ + hex_elems(
                            xs@.take(i as int + 1),
                            hex_128f(upper),
                        ));
                    }
                    i = i + 1;
                }
                proof {
                    assert(xs@.take(n as int) =~= xs@);
                }
                s.append(")");
            },
            Data::AUINT128(xs) => {
                s.append("AUINT128(");
                let n = xs.len();
                proof {
                    assert(xs@.take(0).flat_map(hex_128f(upper)) =~= Seq::<char>::empty());
                    assert(s@ =~= "AUINT128("@ + hex_elems(xs@.take(0), hex_128f(upper)));
                }
                let mut i: usize = 0;
                while i < n
                    invariant
                        0 <= i <= n,
                        n == xs@.len(),
                        s@ == "AUINT128("@ + hex_elems(xs@.take(i as int), hex_128f(upper)),
                    decreases n - i,
                {
                    let x = xs[i];
                    s.append(crate::hex::hex_pad_u64(x.1, 16, upper).as_str());
                    s.append(crate::hex::hex_pad_u64(x.0, 16, upper).as_str());
                    proof {
                        xs@.lemma_flat_map_take_append(hex_128f(upper), i as int);
                        assert(s@ =~= "AUINT128("@ + hex_elems(
                            xs@.take(i as int + 1),
                            hex_128f(upper),
                        ));
                    }
                    i = i + 1;
                }
                proof {
                    assert(xs@.take(n as int) =~= xs@);
                }
                s.append(")");
            },
            Data::STR(v) => {
                s.append("STR(\"");
                s.append(v.as_str());
                s.append("\")");
            },
        }
        proof {
            assert(s@ =~= data_hex(self@, upper));
        }
        s
    }
}

} // verus!
