//! A byte-sink writer with the PTP primitive encoders.
//!
//! Every `write_ptp_*` method appends exactly the encoding given by the
//! corresponding `enc*` specification of [`crate::wire`] to the bytes
//! written so far.

use vstd::prelude::*;

use crate::utf16::utf16;
use crate::utf16::utf16_units;
use crate::wire::enc128;
use crate::wire::enc16;
use crate::wire::enc16i;
use crate::wire::enc32;
use crate::wire::enc32i;
use crate::wire::enc64;
use crate::wire::enc64i;
use crate::wire::enc_seq;
use crate::wire::enc_str;
use crate::wire::enc_u8f;
use crate::wire::enc_i8f;
use crate::wire::enc_u16f;
use crate::wire::enc_i16f;
use crate::wire::enc_u32f;
use crate::wire::enc_i32f;
use crate::wire::enc_u64f;
use crate::wire::enc_i64f;
use crate::wire::enc_u128f;
use crate::wire::enc_i128f;
use crate::wire::enc_vec_u8;
use crate::wire::enc_vec_i8;
use crate::wire::enc_vec_u16;
use crate::wire::enc_vec_i16;
use crate::wire::enc_vec_u32;
use crate::wire::enc_vec_i32;
use crate::wire::enc_vec_u64;
use crate::wire::enc_vec_i64;
use crate::wire::enc_vec_u128;
use crate::wire::enc_vec_i128;

verus! {

/// A growing byte buffer that values are encoded into.
pub struct Writer {
    out: Vec<u8>,
}

impl Writer {
    /// The bytes written so far.
    pub closed spec fn bytes(self) -> Seq<u8> {
        self.out@
    }

    /// A fresh, empty writer.
    pub fn new() -> (r: Writer)
        ensures
            r.bytes() == Seq::<u8>::empty(),
    {
        Writer { out: Vec::new() }
    }

    /// Hand the written bytes out.
    pub fn into_vec(self) -> (r: Vec<u8>)
        ensures
            r@ == self.bytes(),
    {
        self.out
    }

    /// Write one `u8` in its little-endian encoding.
    pub fn write_ptp_u8(&mut self, val: u8)
        ensures
            final(self).bytes() == old(self).bytes() + seq![val],
    {
        self.out.push(val);
        proof {
            assert(final(self).bytes() =~= old(self).bytes() + seq![val]);
        }
    }

    /// Write one `i8` in its little-endian encoding.
    pub fn write_ptp_i8(&mut self, val: i8)
        ensures
            final(self).bytes() == old(self).bytes() + seq![val as u8],
    {
        self.out.push(val as u8);
        proof {
            assert(final(self).bytes() =~= old(self).bytes() + seq![val as u8]);
        }
    }

    /// Write one `u16` in its little-endian encoding.
    pub fn write_ptp_u16(&mut self, val: u16)
        ensures
            final(self).bytes() == old(self).bytes() + enc16(val),
    {
        self.out.push((val % 0x100) as u8);
            self.out.push((val / 0x100) as u8);
        proof {
            assert(final(self).bytes() =~= old(self).bytes() + enc16(val));
        }
    }

    /// Write one `i16` in its little-endian encoding.
    pub fn write_ptp_i16(&mut self, val: i16)
        ensures
            final(self).bytes() == old(self).bytes() + enc16i(val),
    {
        self.write_ptp_u16(val as u16);
        proof {
            assert(final(self).bytes() =~= old(self).bytes() + enc16i(val));
        }
    }

    /// Write one `u32` in its little-endian encoding.
    pub fn write_ptp_u32(&mut self, val: u32)
        ensures
            final(self).bytes() == old(self).bytes() + enc32(val),
    {
        self.out.push((val % 0x100) as u8);
            self.out.push(((val / 0x100) % 0x100) as u8);
            self.out.push(((val / 0x10000) % 0x100) as u8);
            self.out.push(((val / 0x1000000) % 0x100) as u8);
        proof {
            assert(final(self).bytes() =~= old(self).bytes() + enc32(val));
        }
    }

    /// Write one `i32` in its little-endian encoding.
    pub fn write_ptp_i32(&mut self, val: i32)
        ensures
            final(self).bytes() == old(self).bytes() + enc32i(val),
    {
        self.write_ptp_u32(val as u32);
        proof {
            assert(final(self).bytes() =~= old(self).bytes() + enc32i(val));
        }
    }

    /// Write one `u64` in its little-endian encoding.
    pub fn write_ptp_u64(&mut self, val: u64)
        ensures
            final(self).bytes() == old(self).bytes() + enc64(val),
    {
        self.out.push((val % 0x100) as u8);
            self.out.push(((val / 0x100) % 0x100) as u8);
            self.out.push(((val / 0x10000) % 0x100) as u8);
            self.out.push(((val / 0x1000000) % 0x100) as u8);
            self.out.push(((val / 0x100000000) % 0x100) as u8);
            self.out.push(((val / 0x10000000000) % 0x100) as u8);
            self.out.push(((val / 0x1000000000000) % 0x100) as u8);
            self.out.push(((val / 0x100000000000000) % 0x100) as u8);
        proof {
            assert(final(self).bytes() =~= old(self).bytes() + enc64(val));
        }
    }

    /// Write one `i64` in its little-endian encoding.
    pub fn write_ptp_i64(&mut self, val: i64)
        ensures
            final(self).bytes() == old(self).bytes() + enc64i(val),
    {
        self.write_ptp_u64(val as u64);
        proof {
            assert(final(self).bytes() =~= old(self).bytes() + enc64i(val));
        }
    }

    /// Write a 128-bit `(lo, hi)` pair, low half first.
    pub fn write_ptp_u128(&mut self, val: (u64, u64))
        ensures
            final(self).bytes() == old(self).bytes() + enc128(val),
    {
        let (lo, hi) = val;
        self.write_ptp_u64(lo);
        self.write_ptp_u64(hi);
        proof {
            assert(final(self).bytes() =~= old(self).bytes() + enc128(val));
        }
    }

    /// Write a 128-bit signed value; the representation is the same `(lo,
    /// hi)` pair as the unsigned one.
    pub fn write_ptp_i128(&mut self, val: (u64, u64))
        ensures
            final(self).bytes() == old(self).bytes() + enc128(val),
    {
        self.write_ptp_u128(val);
    }

    /// Write a length-prefixed vector of `u8` elements: a `u32` count
    /// followed by each element's encoding.
    #[verifier::loop_isolation(false)]
    pub fn write_ptp_u8_vec(&mut self, items: &[u8])
        requires
            items@.len() <= u32::MAX,
        ensures
            final(self).bytes() == old(self).bytes() + enc_vec_u8(items@),
    {
        let n = items.len();
        self.write_ptp_u32(n as u32);
        proof {
            assert(items@.take(0).flat_map(enc_u8f()) =~= Seq::<u8>::empty());
            assert(self.bytes() =~= old(self).bytes() + enc32(items@.len() as u32) + enc_seq(
                items@.take(0),
                enc_u8f(),
            ));
        }
        let mut i: usize = 0;
        while i < n
            invariant
                0 <= i <= n,
                self.bytes() == old(self).bytes() + enc32(items@.len() as u32) + enc_seq(
                    items@.take(i as int),
                    enc_u8f(),
                ),
            decreases n - i,
        {
            self.write_ptp_u8(items[i]);
            proof {
                items@.lemma_flat_map_take_append(enc_u8f(), i as int);
                assert(self.bytes() =~= old(self).bytes() + enc32(items@.len() as u32) + enc_seq(
                    items@.take(i as int + 1),
                    enc_u8f(),
                ));
            }
            i = i + 1;
        }
        proof {
            assert(items@.take(n as int) =~= items@);
        }
    }

    /// Write a length-prefixed vector of `i8` elements: a `u32` count
    /// followed by each element's encoding.
    #[verifier::loop_isolation(false)]
    pub fn write_ptp_i8_vec(&mut self, items: &[i8])
        requires
            items@.len() <= u32::MAX,
        ensures
            final(self).bytes() == old(self).bytes() + enc_vec_i8(items@),
    {
        let n = items.len();
        self.write_ptp_u32(n as u32);
        proof {
            assert(items@.take(0).flat_map(enc_i8f()) =~= Seq::<u8>::empty());
            assert(self.bytes() =~= old(self).bytes() + enc32(items@.len() as u32) + enc_seq(
                items@.take(0),
                enc_i8f(),
            ));
        }
        let mut i: usize = 0;
        while i < n
            invariant
                0 <= i <= n,
                self.bytes() == old(self).bytes() + enc32(items@.len() as u32) + enc_seq(
                    items@.take(i as int),
                    enc_i8f(),
                ),
            decreases n - i,
        {
            self.write_ptp_i8(items[i]);
            proof {
                items@.lemma_flat_map_take_append(enc_i8f(), i as int);
                assert(self.bytes() =~= old(self).bytes() + enc32(items@.len() as u32) + enc_seq(
                    items@.take(i as int + 1),
                    enc_i8f(),
                ));
            }
            i = i + 1;
        }
        proof {
            assert(items@.take(n as int) =~= items@);
        }
    }

    /// Write a length-prefixed vector of `u16` elements: a `u32` count
    /// followed by each element's encoding.
    #[verifier::loop_isolation(false)]
    pub fn write_ptp_u16_vec(&mut self, items: &[u16])
        requires
            items@.len() <= u32::MAX,
        ensures
            final(self).bytes() == old(self).bytes() + enc_vec_u16(items@),
    {
        let n = items.len();
        self.write_ptp_u32(n as u32);
        proof {
            assert(items@.take(0).flat_map(enc_u16f()) =~= Seq::<u8>::empty());
            assert(self.bytes() =~= old(self).bytes() + enc32(items@.len() as u32) + enc_seq(
                items@.take(0),
                enc_u16f(),
            ));
        }
        let mut i: usize = 0;
        while i < n
            invariant
                0 <= i <= n,
                self.bytes() == old(self).bytes() + enc32(items@.len() as u32) + enc_seq(
                    items@.take(i as int),
                    enc_u16f(),
                ),
            decreases n - i,
        {
            self.write_ptp_u16(items[i]);
            proof {
                items@.lemma_flat_map_take_append(enc_u16f(), i as int);
                assert(self.bytes() =~= old(self).bytes() + enc32(items@.len() as u32) + enc_seq(
                    items@.take(i as int + 1),
                    enc_u16f(),
                ));
            }
            i = i + 1;
        }
        proof {
            assert(items@.take(n as int) =~= items@);
        }
    }

    /// Write a length-prefixed vector of `i16` elements: a `u32` count
    /// followed by each element's encoding.
    #[verifier::loop_isolation(false)]
    pub fn write_ptp_i16_vec(&mut self, items: &[i16])
        requires
            items@.len() <= u32::MAX,
        ensures
            final(self).bytes() == old(self).bytes() + enc_vec_i16(items@),
    {
        let n = items.len();
        self.write_ptp_u32(n as u32);
        proof {
            assert(items@.take(0).flat_map(enc_i16f()) =~= Seq::<u8>::empty());
            assert(self.bytes() =~= old(self).bytes() + enc32(items@.len() as u32) + enc_seq(
                items@.take(0),
                enc_i16f(),
            ));
        }
        let mut i: usize = 0;
        while i < n
            invariant
                0 <= i <= n,
                self.bytes() == old(self).bytes() + enc32(items@.len() as u32) + enc_seq(
                    items@.take(i as int),
                    enc_i16f(),
                ),
            decreases n - i,
        {
            self.write_ptp_i16(items[i]);
            proof {
                items@.lemma_flat_map_take_append(enc_i16f(), i as int);
                assert(self.bytes() =~= old(self).bytes() + enc32(items@.len() as u32) + enc_seq(
                    items@.take(i as int + 1),
                    enc_i16f(),
                ));
            }
            i = i + 1;
        }
        proof {
            assert(items@.take(n as int) =~= items@);
        }
    }

    /// Write a length-prefixed vector of `u32` elements: a `u32` count
    /// followed by each element's encoding.
    #[verifier::loop_isolation(false)]
    pub fn write_ptp_u32_vec(&mut self, items: &[u32])
        requires
            items@.len() <= u32::MAX,
        ensures
            final(self).bytes() == old(self).bytes() + enc_vec_u32(items@),
    {
        let n = items.len();
        self.write_ptp_u32(n as u32);
        proof {
            assert(items@.take(0).flat_map(enc_u32f()) =~= Seq::<u8>::empty());
            assert(self.bytes() =~= old(self).bytes() + enc32(items@.len() as u32) + enc_seq(
                items@.take(0),
                enc_u32f(),
            ));
        }
        let mut i: usize = 0;
        while i < n
            invariant
                0 <= i <= n,
                self.bytes() == old(self).bytes() + enc32(items@.len() as u32) + enc_seq(
                    items@.take(i as int),
                    enc_u32f(),
                ),
            decreases n - i,
        {
            self.write_ptp_u32(items[i]);
            proof {
                items@.lemma_flat_map_take_append(enc_u32f(), i as int);
                assert(self.bytes() =~= old(self).bytes() + enc32(items@.len() as u32) + enc_seq(
                    items@.take(i as int + 1),
                    enc_u32f(),
                ));
            }
            i = i + 1;
        }
        proof {
            assert(items@.take(n as int) =~= items@);
        }
    }

    /// Write a length-prefixed vector of `i32` elements: a `u32` count
    /// followed by each element's encoding.
    #[verifier::loop_isolation(false)]
    pub fn write_ptp_i32_vec(&mut self, items: &[i32])
        requires
            items@.len() <= u32::MAX,
        ensures
            final(self).bytes() == old(self).bytes() + enc_vec_i32(items@),
    {
        let n = items.len();
        self.write_ptp_u32(n as u32);
        proof {
            assert(items@.take(0).flat_map(enc_i32f()) =~= Seq::<u8>::empty());
            assert(self.bytes() =~= old(self).bytes() + enc32(items@.len() as u32) + enc_seq(
                items@.take(0),
                enc_i32f(),
            ));
        }
        let mut i: usize = 0;
        while i < n
            invariant
                0 <= i <= n,
                self.bytes() == old(self).bytes() + enc32(items@.len() as u32) + enc_seq(
                    items@.take(i as int),
                    enc_i32f(),
                ),
            decreases n - i,
        {
            self.write_ptp_i32(items[i]);
            proof {
                items@.lemma_flat_map_take_append(enc_i32f(), i as int);
                assert(self.bytes() =~= old(self).bytes() + enc32(items@.len() as u32) + enc_seq(
                    items@.take(i as int + 1),
                    enc_i32f(),
                ));
            }
            i = i + 1;
        }
        proof {
            assert(items@.take(n as int) =~= items@);
        }
    }

    /// Write a length-prefixed vector of `u64` elements: a `u32` count
    /// followed by each element's encoding.
    #[verifier::loop_isolation(false)]
    pub fn write_ptp_u64_vec(&mut self, items: &[u64])
        requires
            items@.len() <= u32::MAX,
        ensures
            final(self).bytes() == old(self).bytes() + enc_vec_u64(items@),
    {
        let n = items.len();
        self.write_ptp_u32(n as u32);
        proof {
            assert(items@.take(0).flat_map(enc_u64f()) =~= Seq::<u8>::empty());
            assert(self.bytes() =~= old(self).bytes() + enc32(items@.len() as u32) + enc_seq(
                items@.take(0),
                enc_u64f(),
            ));
        }
        let mut i: usize = 0;
        while i < n
            invariant
                0 <= i <= n,
                self.bytes() == old(self).bytes() + enc32(items@.len() as u32) + enc_seq(
                    items@.take(i as int),
                    enc_u64f(),
                ),
            decreases n - i,
        {
            self.write_ptp_u64(items[i]);
            proof {
                items@.lemma_flat_map_take_append(enc_u64f(), i as int);
                assert(self.bytes() =~= old(self).bytes() + enc32(items@.len() as u32) + enc_seq(
                    items@.take(i as int + 1),
                    enc_u64f(),
                ));
            }
            i = i + 1;
        }
        proof {
            assert(items@.take(n as int) =~= items@);
        }
    }

    /// Write a length-prefixed vector of `i64` elements: a `u32` count
    /// followed by each element's encoding.
    #[verifier::loop_isolation(false)]
    pub fn write_ptp_i64_vec(&mut self, items: &[i64])
        requires
            items@.len() <= u32::MAX,
        ensures
            final(self).bytes() == old(self).bytes() + enc_vec_i64(items@),
    {
        let n = items.len();
        self.write_ptp_u32(n as u32);
        proof {
            assert(items@.take(0).flat_map(enc_i64f()) =~= Seq::<u8>::empty());
            assert(self.bytes() =~= old(self).bytes() + enc32(items@.len() as u32) + enc_seq(
                items@.take(0),
                enc_i64f(),
            ));
        }
        let mut i: usize = 0;
        while i < n
            invariant
                0 <= i <= n,
                self.bytes() == old(self).bytes() + enc32(items@.len() as u32) + enc_seq(
                    items@.take(i as int),
                    enc_i64f(),
                ),
            decreases n - i,
        {
            self.write_ptp_i64(items[i]);
            proof {
                items@.lemma_flat_map_take_append(enc_i64f(), i as int);
                assert(self.bytes() =~= old(self).bytes() + enc32(items@.len() as u32) + enc_seq(
                    items@.take(i as int + 1),
                    enc_i64f(),
                ));
            }
            i = i + 1;
        }
        proof {
            assert(items@.take(n as int) =~= items@);
        }
    }

    /// Write a length-prefixed vector of `u128` elements: a `u32` count
    /// followed by each element's encoding.
    #[verifier::loop_isolation(false)]
    pub fn write_ptp_u128_vec(&mut self, items: &[(u64, u64)])
        requires
            items@.len() <= u32::MAX,
        ensures
            final(self).bytes() == old(self).bytes() + enc_vec_u128(items@),
    {
        let n = items.len();
        self.write_ptp_u32(n as u32);
        proof {
            assert(items@.take(0).flat_map(enc_u128f()) =~= Seq::<u8>::empty());
            assert(self.bytes() =~= old(self).bytes() + enc32(items@.len() as u32) + enc_seq(
                items@.take(0),
                enc_u128f(),
            ));
        }
        let mut i: usize = 0;
        while i < n
            invariant
                0 <= i <= n,
                self.bytes() == old(self).bytes() + enc32(items@.len() as u32) + enc_seq(
                    items@.take(i as int),
                    enc_u128f(),
                ),
            decreases n - i,
        {
            self.write_ptp_u128(items[i]);
            proof {
                items@.lemma_flat_map_take_append(enc_u128f(), i as int);
                assert(self.bytes() =~= old(self).bytes() + enc32(items@.len() as u32) + enc_seq(
                    items@.take(i as int + 1),
                    enc_u128f(),
                ));
            }
            i = i + 1;
        }
        proof {
            assert(items@.take(n as int) =~= items@);
        }
    }

    /// Write a length-prefixed vector of `i128` elements: a `u32` count
    /// followed by each element's encoding.
    #[verifier::loop_isolation(false)]
    pub fn write_ptp_i128_vec(&mut self, items: &[(u64, u64)])
        requires
            items@.len() <= u32::MAX,
        ensures
            final(self).bytes() == old(self).bytes() + enc_vec_i128(items@),
    {
        let n = items.len();
        self.write_ptp_u32(n as u32);
        proof {
            assert(items@.take(0).flat_map(enc_i128f()) =~= Seq::<u8>::empty());
            assert(self.bytes() =~= old(self).bytes() + enc32(items@.len() as u32) + enc_seq(
                items@.take(0),
                enc_i128f(),
            ));
        }
        let mut i: usize = 0;
        while i < n
            invariant
                0 <= i <= n,
                self.bytes() == old(self).bytes() + enc32(items@.len() as u32) + enc_seq(
                    items@.take(i as int),
                    enc_i128f(),
                ),
            decreases n - i,
        {
            self.write_ptp_i128(items[i]);
            proof {
                items@.lemma_flat_map_take_append(enc_i128f(), i as int);
                assert(self.bytes() =~= old(self).bytes() + enc32(items@.len() as u32) + enc_seq(
                    items@.take(i as int + 1),
                    enc_i128f(),
                ));
            }
            i = i + 1;
        }
        proof {
            assert(items@.take(n as int) =~= items@);
        }
    }

    /// Write a PTP string: the empty string is the single byte 0; otherwise
    /// a length byte holding twice the unit count plus one, the UTF-16LE
    /// code units, and a two-byte null terminator.
    #[verifier::loop_isolation(false)]
    pub fn write_ptp_str(&mut self, val: &str)
        requires
            utf16(val@).len() <= 127,
        ensures
            final(self).bytes() == old(self).bytes() + enc_str(val@),
    {
        let units = utf16_units(val);
        let n = units.len();
        if n == 0 {
            self.write_ptp_u8(0);
            proof {
                assert(final(self).bytes() =~= old(self).bytes() + enc_str(val@));
            }
            return ;
        }
        self.write_ptp_u8(2 * (n as u8) + 1);
        proof {
            assert(units@.take(0).flat_map(enc_u16f()) =~= Seq::<u8>::empty());
            assert(self.bytes() =~= old(self).bytes() + seq![(2 * utf16(val@).len() + 1) as u8]
                + enc_seq(units@.take(0), enc_u16f()));
        }
        let mut i: usize = 0;
        while i < n
            invariant
                0 <= i <= n,
                self.bytes() == old(self).bytes() + seq![(2 * utf16(val@).len() + 1) as u8]
                    + enc_seq(units@.take(i as int), enc_u16f()),
            decreases n - i,
        {
            self.write_ptp_u16(units[i]);
            proof {
                units@.lemma_flat_map_take_append(enc_u16f(), i as int);
                assert(self.bytes() =~= old(self).bytes() + seq![(2 * utf16(val@).len() + 1) as u8]
                    + enc_seq(units@.take(i as int + 1), enc_u16f()));
            }
            i = i + 1;
        }
        self.write_ptp_u8(0);
        self.write_ptp_u8(0);
        proof {
            assert(units@.take(n as int) =~= units@);
            assert(final(self).bytes() =~= old(self).bytes() + enc_str(val@));
        }
    }
}

} // verus!
