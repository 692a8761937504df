//! A positional reader over a byte buffer, with the PTP primitive decoders.
//!
//! Every `read_ptp_*` method is verified against the corresponding positional
//! decoder of [`crate::wire`]: on success the returned value and the new
//! position are exactly what the decoder gives; on failure the reader is left
//! unchanged and the error says why.  Reading past the end of the buffer is
//! an `Io(UnexpectedEof)` error; only string decoding can report `Malformed`
//! (invalid UTF-16).

use vstd::prelude::*;

use crate::error::Error;
use crate::error::IoErrorKind;
use crate::utf16::utf16_to_chars;
use crate::wire::dec128;
use crate::wire::dec16;
use crate::wire::dec16i;
use crate::wire::dec32;
use crate::wire::dec32i;
use crate::wire::dec64;
use crate::wire::dec64i;
use crate::wire::dec8;
use crate::wire::dec8i;
use crate::wire::dec_n;
use crate::wire::dec_str;
use crate::wire::dec_vec_u8;
use crate::wire::dec_vec_i8;
use crate::wire::dec_vec_u16;
use crate::wire::dec_vec_i16;
use crate::wire::dec_vec_u32;
use crate::wire::dec_vec_i32;
use crate::wire::dec_vec_u64;
use crate::wire::dec_vec_i64;
use crate::wire::dec_vec_u128;
use crate::wire::dec_vec_i128;
use crate::wire::dec8f;
use crate::wire::dec8if;
use crate::wire::dec16f;
use crate::wire::dec16if;
use crate::wire::dec32f;
use crate::wire::dec32if;
use crate::wire::dec64f;
use crate::wire::dec64if;
use crate::wire::dec128f;
use crate::wire::dec_str_units;

verus! {

/// A cursor over a byte buffer.
pub struct Reader<'a> {
    buf: &'a [u8],
    pos: usize,
}

impl<'a> Reader<'a> {
    /// The bytes this reader runs over.
    pub closed spec fn bytes(self) -> Seq<u8> {
        self.buf@
    }

    /// The current position of the cursor.
    pub closed spec fn position(self) -> int {
        self.pos as int
    }

    /// The cursor never runs outside the buffer.
    pub open spec fn wf(self) -> bool {
        0 <= self.position() <= self.bytes().len()
    }

    /// A fresh reader over `buf`, positioned at its start.
    pub fn new(buf: &'a [u8]) -> (r: Reader<'a>)
        ensures
            r.bytes() == buf@,
            r.position() == 0,
            r.wf(),
    {
        Reader { buf, pos: 0 }
    }

    /// Succeeds exactly when the cursor stands at the end of the buffer;
    /// trailing bytes are a `Malformed` error.
    pub fn expect_end(&self) -> (r: Result<(), Error>)
        requires
            self.wf(),
        ensures
            r is Ok <==> self.position() == self.bytes().len(),
            r matches Err(e) ==> e matches Error::Malformed(m) && m@ == "trailing bytes"@,
    {
        if self.pos == self.buf.len() {
            Ok(())
        } else {
            Err(Error::Malformed("trailing bytes".to_owned()))
        }
    }

    /// Read one `u8`.
    pub fn read_ptp_u8(&mut self) -> (r: Result<u8, Error>)
        requires
            old(self).wf(),
        ensures
            final(self).wf(),
            final(self).bytes() == old(self).bytes(),
            match r {
                Ok(v) => dec8(old(self).bytes(), old(self).position()) == Some(
                    (v, final(self).position()),
                ),
                Err(e) => dec8(old(self).bytes(), old(self).position()) is None && final(self).position()
                    == old(self).position() && e == Error::Io(IoErrorKind::UnexpectedEof),
            },
    {
        if self.pos < self.buf.len() {
            let v = self.buf[self.pos];
            self.pos = self.pos + 1;
            Ok(v)
        } else {
            Err(Error::Io(IoErrorKind::UnexpectedEof))
        }
    }

    /// Read one `i8`.
    pub fn read_ptp_i8(&mut self) -> (r: Result<i8, Error>)
        requires
            old(self).wf(),
        ensures
            final(self).wf(),
            final(self).bytes() == old(self).bytes(),
            match r {
                Ok(v) => dec8i(old(self).bytes(), old(self).position()) == Some(
                    (v, final(self).position()),
                ),
                Err(e) => dec8i(old(self).bytes(), old(self).position()) is None && final(self).position()
                    == old(self).position() && e == Error::Io(IoErrorKind::UnexpectedEof),
            },
    {
        if self.pos < self.buf.len() {
            let v = self.buf[self.pos];
            self.pos = self.pos + 1;
            Ok(v as i8)
        } else {
            Err(Error::Io(IoErrorKind::UnexpectedEof))
        }
    }

    /// Read a little-endian `u16`.
    pub fn read_ptp_u16(&mut self) -> (r: Result<u16, Error>)
        requires
            old(self).wf(),
        ensures
            final(self).wf(),
            final(self).bytes() == old(self).bytes(),
            match r {
                Ok(v) => dec16(old(self).bytes(), old(self).position()) == Some(
                    (v, final(self).position()),
                ),
                Err(e) => dec16(old(self).bytes(), old(self).position()) is None && final(self).position()
                    == old(self).position() && e == Error::Io(IoErrorKind::UnexpectedEof),
            },
    {
        if self.buf.len() - self.pos >= 2 {
            let b0 = self.buf[self.pos];
            let b1 = self.buf[self.pos + 1];
            let v = b0 as u16 + (b1 as u16) * 0x100;
            self.pos = self.pos + 2;
            Ok(v)
        } else {
            Err(Error::Io(IoErrorKind::UnexpectedEof))
        }
    }

    /// Read a little-endian `i16`.
    pub fn read_ptp_i16(&mut self) -> (r: Result<i16, Error>)
        requires
            old(self).wf(),
        ensures
            final(self).wf(),
            final(self).bytes() == old(self).bytes(),
            match r {
                Ok(v) => dec16i(old(self).bytes(), old(self).position()) == Some(
                    (v, final(self).position()),
                ),
                Err(e) => dec16i(old(self).bytes(), old(self).position()) is None && final(self).position()
                    == old(self).position() && e == Error::Io(IoErrorKind::UnexpectedEof),
            },
    {
        match self.read_ptp_u16() {
            Ok(v) => Ok(v as i16),
            Err(e) => Err(e),
        }
    }

    /// Read a little-endian `u32`.
    pub fn read_ptp_u32(&mut self) -> (r: Result<u32, Error>)
        requires
            old(self).wf(),
        ensures
            final(self).wf(),
            final(self).bytes() == old(self).bytes(),
            match r {
                Ok(v) => dec32(old(self).bytes(), old(self).position()) == Some(
                    (v, final(self).position()),
                ),
                Err(e) => dec32(old(self).bytes(), old(self).position()) is None && final(self).position()
                    == old(self).position() && e == Error::Io(IoErrorKind::UnexpectedEof),
            },
    {
        if self.buf.len() - self.pos >= 4 {
            let b0 = self.buf[self.pos];
            let b1 = self.buf[self.pos + 1];
            let b2 = self.buf[self.pos + 2];
            let b3 = self.buf[self.pos + 3];
            let v = b0 as u32 + (b1 as u32) * 0x100 + (b2 as u32) * 0x10000 + (b3 as u32)
                * 0x1000000;
            self.pos = self.pos + 4;
            Ok(v)
        } else {
            Err(Error::Io(IoErrorKind::UnexpectedEof))
        }
    }

    /// Read a little-endian `i32`.
    pub fn read_ptp_i32(&mut self) -> (r: Result<i32, Error>)
        requires
            old(self).wf(),
        ensures
            final(self).wf(),
            final(self).bytes() == old(self).bytes(),
            match r {
                Ok(v) => dec32i(old(self).bytes(), old(self).position()) == Some(
                    (v, final(self).position()),
                ),
                Err(e) => dec32i(old(self).bytes(), old(self).position()) is None && final(self).position()
                    == old(self).position() && e == Error::Io(IoErrorKind::UnexpectedEof),
            },
    {
        match self.read_ptp_u32() {
            Ok(v) => Ok(v as i32),
            Err(e) => Err(e),
        }
    }

    /// Read a little-endian `u64`.
    pub fn read_ptp_u64(&mut self) -> (r: Result<u64, Error>)
        requires
            old(self).wf(),
        ensures
            final(self).wf(),
            final(self).bytes() == old(self).bytes(),
            match r {
                Ok(v) => dec64(old(self).bytes(), old(self).position()) == Some(
                    (v, final(self).position()),
                ),
                Err(e) => dec64(old(self).bytes(), old(self).position()) is None && final(self).position()
                    == old(self).position() && e == Error::Io(IoErrorKind::UnexpectedEof),
            },
    {
        if self.buf.len() - self.pos >= 8 {
            let b0 = self.buf[self.pos];
            let b1 = self.buf[self.pos + 1];
            let b2 = self.buf[self.pos + 2];
            let b3 = self.buf[self.pos + 3];
            let b4 = self.buf[self.pos + 4];
            let b5 = self.buf[self.pos + 5];
            let b6 = self.buf[self.pos + 6];
            let b7 = self.buf[self.pos + 7];
            let v = b0 as u64 + (b1 as u64) * 0x100 + (b2 as u64) * 0x10000 + (b3 as u64)
                * 0x1000000 + (b4 as u64) * 0x100000000 + (b5 as u64) * 0x10000000000 + (b6
                as u64) * 0x1000000000000 + (b7 as u64) * 0x100000000000000;
            self.pos = self.pos + 8;
            Ok(v)
        } else {
            Err(Error::Io(IoErrorKind::UnexpectedEof))
        }
    }

    /// Read a little-endian `i64`.
    pub fn read_ptp_i64(&mut self) -> (r: Result<i64, Error>)
        requires
            old(self).wf(),
        ensures
            final(self).wf(),
            final(self).bytes() == old(self).bytes(),
            match r {
                Ok(v) => dec64i(old(self).bytes(), old(self).position()) == Some(
                    (v, final(self).position()),
                ),
                Err(e) => dec64i(old(self).bytes(), old(self).position()) is None && final(self).position()
                    == old(self).position() && e == Error::Io(IoErrorKind::UnexpectedEof),
            },
    {
        match self.read_ptp_u64() {
            Ok(v) => Ok(v as i64),
            Err(e) => Err(e),
        }
    }

    /// Read a 128-bit value as a `(lo, hi)` pair of `u64`s; the low half
    /// comes first on the wire.
    pub fn read_ptp_u128(&mut self) -> (r: Result<(u64, u64), Error>)
        requires
            old(self).wf(),
        ensures
            final(self).wf(),
            final(self).bytes() == old(self).bytes(),
            match r {
                Ok(v) => dec128(old(self).bytes(), old(self).position()) == Some(
                    (v, final(self).position()),
                ),
                Err(e) => dec128(old(self).bytes(), old(self).position()) is None && final(self).position()
                    == old(self).position() && e == Error::Io(IoErrorKind::UnexpectedEof),
            },
    {
        if self.buf.len() - self.pos >= 16 {
            let lo = match self.read_ptp_u64() {
                Ok(v) => v,
                Err(e) => {
                    return Err(e);
                },
            };
            let hi = match self.read_ptp_u64() {
                Ok(v) => v,
                Err(e) => {
                    return Err(e);
                },
            };
            Ok((lo, hi))
        } else {
            Err(Error::Io(IoErrorKind::UnexpectedEof))
        }
    }

    /// Read a 128-bit signed value; the representation is the same `(lo,
    /// hi)` pair as the unsigned one.
    pub fn read_ptp_i128(&mut self) -> (r: Result<(u64, u64), Error>)
        requires
            old(self).wf(),
        ensures
            final(self).wf(),
            final(self).bytes() == old(self).bytes(),
            match r {
                Ok(v) => dec128(old(self).bytes(), old(self).position()) == Some(
                    (v, final(self).position()),
                ),
                Err(e) => dec128(old(self).bytes(), old(self).position()) is None && final(self).position()
                    == old(self).position() && e == Error::Io(IoErrorKind::UnexpectedEof),
            },
    {
        self.read_ptp_u128()
    }

    /// Read a length-prefixed vector of `u8` elements.
    #[verifier::loop_isolation(false)]
    pub fn read_ptp_u8_vec(&mut self) -> (r: Result<Vec<u8>, Error>)
        requires
            old(self).wf(),
        ensures
            final(self).wf(),
            final(self).bytes() == old(self).bytes(),
            match r {
                Ok(v) => dec_vec_u8(old(self).bytes(), old(self).position()) == Some(
                    (v@, final(self).position()),
                ),
                Err(e) => dec_vec_u8(old(self).bytes(), old(self).position()) is None && final(self).position()
                    == old(self).position() && e == Error::Io(IoErrorKind::UnexpectedEof),
            },
    {
        let saved = self.pos;
        let n = match self.read_ptp_u32() {
            Ok(v) => v,
            Err(e) => {
                return Err(e);
            },
        };
        let ghost b = self.bytes();
        let ghost elems_start = self.position();
        let mut out: Vec<u8> = Vec::new();
        proof {
            if let Some((s0, _end0)) = dec_n(b, elems_start, n as nat, dec8f()) {
                assert(Seq::<u8>::empty() + s0 =~= s0);
            }
        }
        let mut k: u32 = 0;
        while k < n
            invariant
                self.wf(),
                self.bytes() == b,
                0 <= k <= n,
                out@.len() == k,
                saved == old(self).position(),
                self.pos as int >= 0,
                (match dec_n(b, self.position(), (n - k) as nat, dec8f()) {
                    Some((s, end)) => dec_n(b, elems_start, n as nat, dec8f()) == Some(
                        (out@ + s, end),
                    ),
                    None => dec_n(b, elems_start, n as nat, dec8f()) is None,
                }),
            decreases n - k,
        {
            let ghost pos0 = self.position();
            let v = match self.read_ptp_u8() {
                Ok(v) => v,
                Err(_) => {
                    proof {
                        assert((dec8f())(b, pos0) is None);
                        assert(dec_n(b, pos0, (n - k) as nat, dec8f()) is None);
                    }
                    self.pos = saved;
                    return Err(Error::Io(IoErrorKind::UnexpectedEof));
                },
            };
            let ghost prev = out@;
            out.push(v);
            proof {
                assert((dec8f())(b, pos0) == Some((v, self.position())));
                if let Some((s, end)) = dec_n(b, self.position(), (n - k - 1) as nat, dec8f()) {
                    assert(dec_n(b, pos0, (n - k) as nat, dec8f()) == Some((seq![v] + s, end)));
                    assert(prev + (seq![v] + s) =~= out@ + s);
                }
            }
            k = k + 1;
        }
        proof {
            assert(dec_n(b, self.position(), 0nat, dec8f()) == Some(
                (Seq::<u8>::empty(), self.position()),
            ));
            assert(out@ + Seq::<u8>::empty() =~= out@);
        }
        Ok(out)
    }

    /// Read a length-prefixed vector of `i8` elements.
    #[verifier::loop_isolation(false)]
    pub fn read_ptp_i8_vec(&mut self) -> (r: Result<Vec<i8>, Error>)
        requires
            old(self).wf(),
        ensures
            final(self).wf(),
            final(self).bytes() == old(self).bytes(),
            match r {
                Ok(v) => dec_vec_i8(old(self).bytes(), old(self).position()) == Some(
                    (v@, final(self).position()),
                ),
                Err(e) => dec_vec_i8(old(self).bytes(), old(self).position()) is None && final(self).position()
                    == old(self).position() && e == Error::Io(IoErrorKind::UnexpectedEof),
            },
    {
        let saved = self.pos;
        let n = match self.read_ptp_u32() {
            Ok(v) => v,
            Err(e) => {
                return Err(e);
            },
        };
        let ghost b = self.bytes();
        let ghost elems_start = self.position();
        let mut out: Vec<i8> = Vec::new();
        proof {
            if let Some((s0, _end0)) = dec_n(b, elems_start, n as nat, dec8if()) {
                assert(Seq::<i8>::empty() + s0 =~= s0);
            }
        }
        let mut k: u32 = 0;
        while k < n
            invariant
                self.wf(),
                self.bytes() == b,
                0 <= k <= n,
                out@.len() == k,
                saved == old(self).position(),
                self.pos as int >= 0,
                (match dec_n(b, self.position(), (n - k) as nat, dec8if()) {
                    Some((s, end)) => dec_n(b, elems_start, n as nat, dec8if()) == Some(
                        (out@ + s, end),
                    ),
                    None => dec_n(b, elems_start, n as nat, dec8if()) is None,
                }),
            decreases n - k,
        {
            let ghost pos0 = self.position();
            let v = match self.read_ptp_i8() {
                Ok(v) => v,
                Err(_) => {
                    proof {
                        assert((dec8if())(b, pos0) is None);
                        assert(dec_n(b, pos0, (n - k) as nat, dec8if()) is None);
                    }
                    self.pos = saved;
                    return Err(Error::Io(IoErrorKind::UnexpectedEof));
                },
            };
            let ghost prev = out@;
            out.push(v);
            proof {
                assert((dec8if())(b, pos0) == Some((v, self.position())));
                if let Some((s, end)) = dec_n(b, self.position(), (n - k - 1) as nat, dec8if()) {
                    assert(dec_n(b, pos0, (n - k) as nat, dec8if()) == Some((seq![v] + s, end)));
                    assert(prev + (seq![v] + s) =~= out@ + s);
                }
            }
            k = k + 1;
        }
        proof {
            assert(dec_n(b, self.position(), 0nat, dec8if()) == Some(
                (Seq::<i8>::empty(), self.position()),
            ));
            assert(out@ + Seq::<i8>::empty() =~= out@);
        }
        Ok(out)
    }

    /// Read a length-prefixed vector of `u16` elements.
    #[verifier::loop_isolation(false)]
    pub fn read_ptp_u16_vec(&mut self) -> (r: Result<Vec<u16>, Error>)
        requires
            old(self).wf(),
        ensures
            final(self).wf(),
            final(self).bytes() == old(self).bytes(),
            match r {
                Ok(v) => dec_vec_u16(old(self).bytes(), old(self).position()) == Some(
                    (v@, final(self).position()),
                ),
                Err(e) => dec_vec_u16(old(self).bytes(), old(self).position()) is None && final(self).position()
                    == old(self).position() && e == Error::Io(IoErrorKind::UnexpectedEof),
            },
    {
        let saved = self.pos;
        let n = match self.read_ptp_u32() {
            Ok(v) => v,
            Err(e) => {
                return Err(e);
            },
        };
        let ghost b = self.bytes();
        let ghost elems_start = self.position();
        let mut out: Vec<u16> = Vec::new();
        proof {
            if let Some((s0, _end0)) = dec_n(b, elems_start, n as nat, dec16f()) {
                assert(Seq::<u16>::empty() + s0 =~= s0);
            }
        }
        let mut k: u32 = 0;
        while k < n
            invariant
                self.wf(),
                self.bytes() == b,
                0 <= k <= n,
                out@.len() == k,
                saved == old(self).position(),
                self.pos as int >= 0,
                (match dec_n(b, self.position(), (n - k) as nat, dec16f()) {
                    Some((s, end)) => dec_n(b, elems_start, n as nat, dec16f()) == Some(
                        (out@ + s, end),
                    ),
                    None => dec_n(b, elems_start, n as nat, dec16f()) is None,
                }),
            decreases n - k,
        {
            let ghost pos0 = self.position();
            let v = match self.read_ptp_u16() {
                Ok(v) => v,
                Err(_) => {
                    proof {
                        assert((dec16f())(b, pos0) is None);
                        assert(dec_n(b, pos0, (n - k) as nat, dec16f()) is None);
                    }
                    self.pos = saved;
                    return Err(Error::Io(IoErrorKind::UnexpectedEof));
                },
            };
            let ghost prev = out@;
            out.push(v);
            proof {
                assert((dec16f())(b, pos0) == Some((v, self.position())));
                if let Some((s, end)) = dec_n(b, self.position(), (n - k - 1) as nat, dec16f()) {
                    assert(dec_n(b, pos0, (n - k) as nat, dec16f()) == Some((seq![v] + s, end)));
                    assert(prev + (seq![v] + s) =~= out@ + s);
                }
            }
            k = k + 1;
        }
        proof {
            assert(dec_n(b, self.position(), 0nat, dec16f()) == Some(
                (Seq::<u16>::empty(), self.position()),
            ));
            assert(out@ + Seq::<u16>::empty() =~= out@);
        }
        Ok(out)
    }

    /// Read a length-prefixed vector of `i16` elements.
    #[verifier::loop_isolation(false)]
    pub fn read_ptp_i16_vec(&mut self) -> (r: Result<Vec<i16>, Error>)
        requires
            old(self).wf(),
        ensures
            final(self).wf(),
            final(self).bytes() == old(self).bytes(),
            match r {
                Ok(v) => dec_vec_i16(old(self).bytes(), old(self).position()) == Some(
                    (v@, final(self).position()),
                ),
                Err(e) => dec_vec_i16(old(self).bytes(), old(self).position()) is None && final(self).position()
                    == old(self).position() && e == Error::Io(IoErrorKind::UnexpectedEof),
            },
    {
        let saved = self.pos;
        let n = match self.read_ptp_u32() {
            Ok(v) => v,
            Err(e) => {
                return Err(e);
            },
        };
        let ghost b = self.bytes();
        let ghost elems_start = self.position();
        let mut out: Vec<i16> = Vec::new();
        proof {
            if let Some((s0, _end0)) = dec_n(b, elems_start, n as nat, dec16if()) {
                assert(Seq::<i16>::empty() + s0 =~= s0);
            }
        }
        let mut k: u32 = 0;
        while k < n
            invariant
                self.wf(),
                self.bytes() == b,
                0 <= k <= n,
                out@.len() == k,
                saved == old(self).position(),
                self.pos as int >= 0,
                (match dec_n(b, self.position(), (n - k) as nat, dec16if()) {
                    Some((s, end)) => dec_n(b, elems_start, n as nat, dec16if()) == Some(
                        (out@ + s, end),
                    ),
                    None => dec_n(b, elems_start, n as nat, dec16if()) is None,
                }),
            decreases n - k,
        {
            let ghost pos0 = self.position();
            let v = match self.read_ptp_i16() {
                Ok(v) => v,
                Err(_) => {
                    proof {
                        assert((dec16if())(b, pos0) is None);
                        assert(dec_n(b, pos0, (n - k) as nat, dec16if()) is None);
                    }
                    self.pos = saved;
                    return Err(Error::Io(IoErrorKind::UnexpectedEof));
                },
            };
            let ghost prev = out@;
            out.push(v);
            proof {
                assert((dec16if())(b, pos0) == Some((v, self.position())));
                if let Some((s, end)) = dec_n(b, self.position(), (n - k - 1) as nat, dec16if()) {
                    assert(dec_n(b, pos0, (n - k) as nat, dec16if()) == Some((seq![v] + s, end)));
                    assert(prev + (seq![v] + s) =~= out@ + s);
                }
            }
            k = k + 1;
        }
        proof {
            assert(dec_n(b, self.position(), 0nat, dec16if()) == Some(
                (Seq::<i16>::empty(), self.position()),
            ));
            assert(out@ + Seq::<i16>::empty() =~= out@);
        }
        Ok(out)
    }

    /// Read a length-prefixed vector of `u32` elements.
    #[verifier::loop_isolation(false)]
    pub fn read_ptp_u32_vec(&mut self) -> (r: Result<Vec<u32>, Error>)
        requires
            old(self).wf(),
        ensures
            final(self).wf(),
            final(self).bytes() == old(self).bytes(),
            match r {
                Ok(v) => dec_vec_u32(old(self).bytes(), old(self).position()) == Some(
                    (v@, final(self).position()),
                ),
                Err(e) => dec_vec_u32(old(self).bytes(), old(self).position()) is None && final(self).position()
                    == old(self).position() && e == Error::Io(IoErrorKind::UnexpectedEof),
            },
    {
        let saved = self.pos;
        let n = match self.read_ptp_u32() {
            Ok(v) => v,
            Err(e) => {
                return Err(e);
            },
        };
        let ghost b = self.bytes();
        let ghost elems_start = self.position();
        let mut out: Vec<u32> = Vec::new();
        proof {
            if let Some((s0, _end0)) = dec_n(b, elems_start, n as nat, dec32f()) {
                assert(Seq::<u32>::empty() + s0 =~= s0);
            }
        }
        let mut k: u32 = 0;
        while k < n
            invariant
                self.wf(),
                self.bytes() == b,
                0 <= k <= n,
                out@.len() == k,
                saved == old(self).position(),
                self.pos as int >= 0,
                (match dec_n(b, self.position(), (n - k) as nat, dec32f()) {
                    Some((s, end)) => dec_n(b, elems_start, n as nat, dec32f()) == Some(
                        (out@ + s, end),
                    ),
                    None => dec_n(b, elems_start, n as nat, dec32f()) is None,
                }),
            decreases n - k,
        {
            let ghost pos0 = self.position();
            let v = match self.read_ptp_u32() {
                Ok(v) => v,
                Err(_) => {
                    proof {
                        assert((dec32f())(b, pos0) is None);
                        assert(dec_n(b, pos0, (n - k) as nat, dec32f()) is None);
                    }
                    self.pos = saved;
                    return Err(Error::Io(IoErrorKind::UnexpectedEof));
                },
            };
            let ghost prev = out@;
            out.push(v);
            proof {
                assert((dec32f())(b, pos0) == Some((v, self.position())));
                if let Some((s, end)) = dec_n(b, self.position(), (n - k - 1) as nat, dec32f()) {
                    assert(dec_n(b, pos0, (n - k) as nat, dec32f()) == Some((seq![v] + s, end)));
                    assert(prev + (seq![v] + s) =~= out@ + s);
                }
            }
            k = k + 1;
        }
        proof {
            assert(dec_n(b, self.position(), 0nat, dec32f()) == Some(
                (Seq::<u32>::empty(), self.position()),
            ));
            assert(out@ + Seq::<u32>::empty() =~= out@);
        }
        Ok(out)
    }

    /// Read a length-prefixed vector of `i32` elements.
    #[verifier::loop_isolation(false)]
    pub fn read_ptp_i32_vec(&mut self) -> (r: Result<Vec<i32>, Error>)
        requires
            old(self).wf(),
        ensures
            final(self).wf(),
            final(self).bytes() == old(self).bytes(),
            match r {
                Ok(v) => dec_vec_i32(old(self).bytes(), old(self).position()) == Some(
                    (v@, final(self).position()),
                ),
                Err(e) => dec_vec_i32(old(self).bytes(), old(self).position()) is None && final(self).position()
                    == old(self).position() && e == Error::Io(IoErrorKind::UnexpectedEof),
            },
    {
        let saved = self.pos;
        let n = match self.read_ptp_u32() {
            Ok(v) => v,
            Err(e) => {
                return Err(e);
            },
        };
        let ghost b = self.bytes();
        let ghost elems_start = self.position();
        let mut out: Vec<i32> = Vec::new();
        proof {
            if let Some((s0, _end0)) = dec_n(b, elems_start, n as nat, dec32if()) {
                assert(Seq::<i32>::empty() + s0 =~= s0);
            }
        }
        let mut k: u32 = 0;
        while k < n
            invariant
                self.wf(),
                self.bytes() == b,
                0 <= k <= n,
                out@.len() == k,
                saved == old(self).position(),
                self.pos as int >= 0,
                (match dec_n(b, self.position(), (n - k) as nat, dec32if()) {
                    Some((s, end)) => dec_n(b, elems_start, n as nat, dec32if()) == Some(
                        (out@ + s, end),
                    ),
                    None => dec_n(b, elems_start, n as nat, dec32if()) is None,
                }),
            decreases n - k,
        {
            let ghost pos0 = self.position();
            let v = match self.read_ptp_i32() {
                Ok(v) => v,
                Err(_) => {
                    proof {
                        assert((dec32if())(b, pos0) is None);
                        assert(dec_n(b, pos0, (n - k) as nat, dec32if()) is None);
                    }
                    self.pos = saved;
                    return Err(Error::Io(IoErrorKind::UnexpectedEof));
                },
            };
            let ghost prev = out@;
            out.push(v);
            proof {
                assert((dec32if())(b, pos0) == Some((v, self.position())));
                if let Some((s, end)) = dec_n(b, self.position(), (n - k - 1) as nat, dec32if()) {
                    assert(dec_n(b, pos0, (n - k) as nat, dec32if()) == Some((seq![v] + s, end)));
                    assert(prev + (seq![v] + s) =~= out@ + s);
                }
            }
            k = k + 1;
        }
        proof {
            assert(dec_n(b, self.position(), 0nat, dec32if()) == Some(
                (Seq::<i32>::empty(), self.position()),
            ));
            assert(out@ + Seq::<i32>::empty() =~= out@);
        }
        Ok(out)
    }

    /// Read a length-prefixed vector of `u64` elements.
    #[verifier::loop_isolation(false)]
    pub fn read_ptp_u64_vec(&mut self) -> (r: Result<Vec<u64>, Error>)
        requires
            old(self).wf(),
        ensures
            final(self).wf(),
            final(self).bytes() == old(self).bytes(),
            match r {
                Ok(v) => dec_vec_u64(old(self).bytes(), old(self).position()) == Some(
                    (v@, final(self).position()),
                ),
                Err(e) => dec_vec_u64(old(self).bytes(), old(self).position()) is None && final(self).position()
                    == old(self).position() && e == Error::Io(IoErrorKind::UnexpectedEof),
            },
    {
        let saved = self.pos;
        let n = match self.read_ptp_u32() {
            Ok(v) => v,
            Err(e) => {
                return Err(e);
            },
        };
        let ghost b = self.bytes();
        let ghost elems_start = self.position();
        let mut out: Vec<u64> = Vec::new();
        proof {
            if let Some((s0, _end0)) = dec_n(b, elems_start, n as nat, dec64f()) {
                assert(Seq::<u64>::empty() + s0 =~= s0);
            }
        }
        let mut k: u32 = 0;
        while k < n
            invariant
                self.wf(),
                self.bytes() == b,
                0 <= k <= n,
                out@.len() == k,
                saved == old(self).position(),
                self.pos as int >= 0,
                (match dec_n(b, self.position(), (n - k) as nat, dec64f()) {
                    Some((s, end)) => dec_n(b, elems_start, n as nat, dec64f()) == Some(
                        (out@ + s, end),
                    ),
                    None => dec_n(b, elems_start, n as nat, dec64f()) is None,
                }),
            decreases n - k,
        {
            let ghost pos0 = self.position();
            let v = match self.read_ptp_u64() {
                Ok(v) => v,
                Err(_) => {
                    proof {
                        assert((dec64f())(b, pos0) is None);
                        assert(dec_n(b, pos0, (n - k) as nat, dec64f()) is None);
                    }
                    self.pos = saved;
                    return Err(Error::Io(IoErrorKind::UnexpectedEof));
                },
            };
            let ghost prev = out@;
            out.push(v);
            proof {
                assert((dec64f())(b, pos0) == Some((v, self.position())));
                if let Some((s, end)) = dec_n(b, self.position(), (n - k - 1) as nat, dec64f()) {
                    assert(dec_n(b, pos0, (n - k) as nat, dec64f()) == Some((seq![v] + s, end)));
                    assert(prev + (seq![v] + s) =~= out@ + s);
                }
            }
            k = k + 1;
        }
        proof {
            assert(dec_n(b, self.position(), 0nat, dec64f()) == Some(
                (Seq::<u64>::empty(), self.position()),
            ));
            assert(out@ + Seq::<u64>::empty() =~= out@);
        }
        Ok(out)
    }

    /// Read a length-prefixed vector of `i64` elements.
    #[verifier::loop_isolation(false)]
    pub fn read_ptp_i64_vec(&mut self) -> (r: Result<Vec<i64>, Error>)
        requires
            old(self).wf(),
        ensures
            final(self).wf(),
            final(self).bytes() == old(self).bytes(),
            match r {
                Ok(v) => dec_vec_i64(old(self).bytes(), old(self).position()) == Some(
                    (v@, final(self).position()),
                ),
                Err(e) => dec_vec_i64(old(self).bytes(), old(self).position()) is None && final(self).position()
                    == old(self).position() && e == Error::Io(IoErrorKind::UnexpectedEof),
            },
    {
        let saved = self.pos;
        let n = match self.read_ptp_u32() {
            Ok(v) => v,
            Err(e) => {
                return Err(e);
            },
        };
        let ghost b = self.bytes();
        let ghost elems_start = self.position();
        let mut out: Vec<i64> = Vec::new();
        proof {
            if let Some((s0, _end0)) = dec_n(b, elems_start, n as nat, dec64if()) {
                assert(Seq::<i64>::empty() + s0 =~= s0);
            }
        }
        let mut k: u32 = 0;
        while k < n
            invariant
                self.wf(),
                self.bytes() == b,
                0 <= k <= n,
                out@.len() == k,
                saved == old(self).position(),
                self.pos as int >= 0,
                (match dec_n(b, self.position(), (n - k) as nat, dec64if()) {
                    Some((s, end)) => dec_n(b, elems_start, n as nat, dec64if()) == Some(
                        (out@ + s, end),
                    ),
                    None => dec_n(b, elems_start, n as nat, dec64if()) is None,
                }),
            decreases n - k,
        {
            let ghost pos0 = self.position();
            let v = match self.read_ptp_i64() {
                Ok(v) => v,
                Err(_) => {
                    proof {
                        assert((dec64if())(b, pos0) is None);
                        assert(dec_n(b, pos0, (n - k) as nat, dec64if()) is None);
                    }
                    self.pos = saved;
                    return Err(Error::Io(IoErrorKind::UnexpectedEof));
                },
            };
            let ghost prev = out@;
            out.push(v);
            proof {
                assert((dec64if())(b, pos0) == Some((v, self.position())));
                if let Some((s, end)) = dec_n(b, self.position(), (n - k - 1) as nat, dec64if()) {
                    assert(dec_n(b, pos0, (n - k) as nat, dec64if()) == Some((seq![v] + s, end)));
                    assert(prev + (seq![v] + s) =~= out@ + s);
                }
            }
            k = k + 1;
        }
        proof {
            assert(dec_n(b, self.position(), 0nat, dec64if()) == Some(
                (Seq::<i64>::empty(), self.position()),
            ));
            assert(out@ + Seq::<i64>::empty() =~= out@);
        }
        Ok(out)
    }

    /// Read a length-prefixed vector of `u128` elements.
    #[verifier::loop_isolation(false)]
    pub fn read_ptp_u128_vec(&mut self) -> (r: Result<Vec<(u64, u64)>, Error>)
        requires
            old(self).wf(),
        ensures
            final(self).wf(),
            final(self).bytes() == old(self).bytes(),
            match r {
                Ok(v) => dec_vec_u128(old(self).bytes(), old(self).position()) == Some(
                    (v@, final(self).position()),
                ),
                Err(e) => dec_vec_u128(old(self).bytes(), old(self).position()) is None && final(self).position()
                    == old(self).position() && e == Error::Io(IoErrorKind::UnexpectedEof),
            },
    {
        let saved = self.pos;
        let n = match self.read_ptp_u32() {
            Ok(v) => v,
            Err(e) => {
                return Err(e);
            },
        };
        let ghost b = self.bytes();
        let ghost elems_start = self.position();
        let mut out: Vec<(u64, u64)> = Vec::new();
        proof {
            if let Some((s0, _end0)) = dec_n(b, elems_start, n as nat, dec128f()) {
                assert(Seq::<(u64, u64)>::empty() + s0 =~= s0);
            }
        }
        let mut k: u32 = 0;
        while k < n
            invariant
                self.wf(),
                self.bytes() == b,
                0 <= k <= n,
                out@.len() == k,
                saved == old(self).position(),
                self.pos as int >= 0,
                (match dec_n(b, self.position(), (n - k) as nat, dec128f()) {
                    Some((s, end)) => dec_n(b, elems_start, n as nat, dec128f()) == Some(
                        (out@ + s, end),
                    ),
                    None => dec_n(b, elems_start, n as nat, dec128f()) is None,
                }),
            decreases n - k,
        {
            let ghost pos0 = self.position();
            let v = match self.read_ptp_u128() {
                Ok(v) => v,
                Err(_) => {
                    proof {
                        assert((dec128f())(b, pos0) is None);
                        assert(dec_n(b, pos0, (n - k) as nat, dec128f()) is None);
                    }
                    self.pos = saved;
                    return Err(Error::Io(IoErrorKind::UnexpectedEof));
                },
            };
            let ghost prev = out@;
            out.push(v);
            proof {
                assert((dec128f())(b, pos0) == Some((v, self.position())));
                if let Some((s, end)) = dec_n(b, self.position(), (n - k - 1) as nat, dec128f()) {
                    assert(dec_n(b, pos0, (n - k) as nat, dec128f()) == Some((seq![v] + s, end)));
                    assert(prev + (seq![v] + s) =~= out@ + s);
                }
            }
            k = k + 1;
        }
        proof {
            assert(dec_n(b, self.position(), 0nat, dec128f()) == Some(
                (Seq::<(u64, u64)>::empty(), self.position()),
            ));
            assert(out@ + Seq::<(u64, u64)>::empty() =~= out@);
        }
        Ok(out)
    }

    /// Read a length-prefixed vector of `i128` elements.
    #[verifier::loop_isolation(false)]
    pub fn read_ptp_i128_vec(&mut self) -> (r: Result<Vec<(u64, u64)>, Error>)
        requires
            old(self).wf(),
        ensures
            final(self).wf(),
            final(self).bytes() == old(self).bytes(),
            match r {
                Ok(v) => dec_vec_i128(old(self).bytes(), old(self).position()) == Some(
                    (v@, final(self).position()),
                ),
                Err(e) => dec_vec_i128(old(self).bytes(), old(self).position()) is None && final(self).position()
                    == old(self).position() && e == Error::Io(IoErrorKind::UnexpectedEof),
            },
    {
        let saved = self.pos;
        let n = match self.read_ptp_u32() {
            Ok(v) => v,
            Err(e) => {
                return Err(e);
            },
        };
        let ghost b = self.bytes();
        let ghost elems_start = self.position();
        let mut out: Vec<(u64, u64)> = Vec::new();
        proof {
            if let Some((s0, _end0)) = dec_n(b, elems_start, n as nat, dec128f()) {
                assert(Seq::<(u64, u64)>::empty() + s0 =~= s0);
            }
        }
        let mut k: u32 = 0;
        while k < n
            invariant
                self.wf(),
                self.bytes() == b,
                0 <= k <= n,
                out@.len() == k,
                saved == old(self).position(),
                self.pos as int >= 0,
                (match dec_n(b, self.position(), (n - k) as nat, dec128f()) {
                    Some((s, end)) => dec_n(b, elems_start, n as nat, dec128f()) == Some(
                        (out@ + s, end),
                    ),
                    None => dec_n(b, elems_start, n as nat, dec128f()) is None,
                }),
            decreases n - k,
        {
            let ghost pos0 = self.position();
            let v = match self.read_ptp_i128() {
                Ok(v) => v,
                Err(_) => {
                    proof {
                        assert((dec128f())(b, pos0) is None);
                        assert(dec_n(b, pos0, (n - k) as nat, dec128f()) is None);
                    }
                    self.pos = saved;
                    return Err(Error::Io(IoErrorKind::UnexpectedEof));
                },
            };
            let ghost prev = out@;
            out.push(v);
            proof {
                assert((dec128f())(b, pos0) == Some((v, self.position())));
                if let Some((s, end)) = dec_n(b, self.position(), (n - k - 1) as nat, dec128f()) {
                    assert(dec_n(b, pos0, (n - k) as nat, dec128f()) == Some((seq![v] + s, end)));
                    assert(prev + (seq![v] + s) =~= out@ + s);
                }
            }
            k = k + 1;
        }
        proof {
            assert(dec_n(b, self.position(), 0nat, dec128f()) == Some(
                (Seq::<(u64, u64)>::empty(), self.position()),
            ));
            assert(out@ + Seq::<(u64, u64)>::empty() =~= out@);
        }
        Ok(out)
    }

    /// Read a PTP string: a length byte, UTF-16LE code units, and a null
    /// terminator that is discarded without validation.  Fails with
    /// `Io(UnexpectedEof)` when the buffer is too short and with `Malformed`
    /// when the code units are not valid UTF-16.
    #[verifier::loop_isolation(false)]
    pub fn read_ptp_str(&mut self) -> (r: Result<String, Error>)
        requires
            old(self).wf(),
        ensures
            final(self).wf(),
            final(self).bytes() == old(self).bytes(),
            match r {
                Ok(s) => dec_str(old(self).bytes(), old(self).position()) == Some(
                    (s@, final(self).position()),
                ),
                Err(e) => dec_str(old(self).bytes(), old(self).position()) is None && final(self).position()
                    == old(self).position() && (match dec_str_units(old(self).bytes(), old(self).position()) {
                    None => e == Error::Io(IoErrorKind::UnexpectedEof),
                    Some((units, _)) => utf16_to_chars(units) is None && (e matches
                        Error::Malformed(m) && m@ == "invalid utf16 data"@),
                }),
            },
    {
        let saved = self.pos;
        let n = match self.read_ptp_u8() {
            Ok(v) => v,
            Err(e) => {
                return Err(e);
            },
        };
        if n == 0 {
            let s = String::new();
            proof {
                assert(utf16_to_chars(Seq::<u16>::empty()) == Some(Seq::<char>::empty()));
            }
            return Ok(s);
        }
        let count = (n - 1) / 2;
        let ghost b = self.bytes();
        let ghost elems_start = self.position();
        let mut units: Vec<u16> = Vec::new();
        proof {
            if let Some((s0, _end0)) = dec_n(b, elems_start, count as nat, dec16f()) {
                assert(Seq::<u16>::empty() + s0 =~= s0);
            }
        }
        let mut k: u8 = 0;
        while k < count
            invariant
                self.wf(),
                self.bytes() == b,
                0 <= k <= count,
                units@.len() == k,
                self.pos as int >= 0,
                (match dec_n(b, self.position(), (count - k) as nat, dec16f()) {
                    Some((s, end)) => dec_n(b, elems_start, count as nat, dec16f()) == Some(
                        (units@ + s, end),
                    ),
                    None => dec_n(b, elems_start, count as nat, dec16f()) is None,
                }),
            decreases count - k,
        {
            let ghost pos0 = self.position();
            let v = match self.read_ptp_u16() {
                Ok(v) => v,
                Err(_) => {
                    proof {
                        assert((dec16f())(b, pos0) is None);
                        assert(dec_n(b, pos0, (count - k) as nat, dec16f()) is None);
                    }
                    self.pos = saved;
                    return Err(Error::Io(IoErrorKind::UnexpectedEof));
                },
            };
            let ghost prev = units@;
            units.push(v);
            proof {
                assert((dec16f())(b, pos0) == Some((v, self.position())));
                if let Some((s, end)) = dec_n(b, self.position(), (count - k - 1) as nat, dec16f()) {
                    assert(dec_n(b, pos0, (count - k) as nat, dec16f()) == Some((seq![v] + s, end)));
                    assert(prev + (seq![v] + s) =~= units@ + s);
                }
            }
            k = k + 1;
        }
        proof {
            assert(dec_n(b, self.position(), 0nat, dec16f()) == Some(
                (Seq::<u16>::empty(), self.position()),
            ));
            assert(units@ + Seq::<u16>::empty() =~= units@);
        }
        match self.read_ptp_u16() {
            Ok(_) => {},
            Err(e) => {
                self.pos = saved;
                return Err(e);
            },
        };
        match crate::utf16::string_from_utf16(units.as_slice()) {
            Some(s) => Ok(s),
            None => {
                self.pos = saved;
                Err(Error::Malformed("invalid utf16 data".to_owned()))
            },
        }
    }
}

} // verus!
