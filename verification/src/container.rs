//! PTP-over-USB container framing: the fixed 12-byte header.
//!
//! A container starts with a little-endian header of total length (`u32`,
//! including the header itself), kind (`u16`), code (`u16`), and transaction
//! id (`u32`).  Parsing fails with `Malformed` when the advertised length is
//! shorter than the header or the kind is not one of the four known ones.

use vstd::prelude::*;

use crate::error::Error;
use crate::error::IoErrorKind;
use crate::reader::Reader;
use crate::wire::enc16;
use crate::wire::enc32;
use crate::wire::u16_at;
use crate::wire::u32_at;
use crate::wire::lemma_dec16_enc16;
use crate::wire::lemma_dec32_enc32;
use crate::writer::Writer;

verus! {

/// The size of a container header in bytes.
pub const PTP_CONTAINER_INFO_SIZE: usize = 12;

/// The kind of a PTP container.
#[derive(Debug, Clone, Copy, PartialEq, Eq, Structural)]
pub enum ContainerType {
    /// An operation request (wire value 1).
    Command,
    /// A data phase in either direction (wire value 2).
    Data,
    /// An operation response (wire value 3).
    Response,
    /// An asynchronous event (wire value 4).
    Event,
}

impl ContainerType {
    /// The wire value of this container kind.
    pub open spec fn spec_to_u16(self) -> u16 {
        match self {
            ContainerType::Command => 1,
            ContainerType::Data => 2,
            ContainerType::Response => 3,
            ContainerType::Event => 4,
        }
    }

    /// The container kind with the given wire value, if any.
    pub open spec fn spec_from_u16(n: u16) -> Option<ContainerType> {
        if n == 1 {
            Some(ContainerType::Command)
        } else if n == 2 {
            Some(ContainerType::Data)
        } else if n == 3 {
            Some(ContainerType::Response)
        } else if n == 4 {
            Some(ContainerType::Event)
        } else {
            None
        }
    }

    /// Recover the wire value of this container kind.
    pub fn to_u16(self) -> (r: u16)
        ensures
            r == self.spec_to_u16(),
    {
        match self {
            ContainerType::Command => 1,
            ContainerType::Data => 2,
            ContainerType::Response => 3,
            ContainerType::Event => 4,
        }
    }

    /// Look up the container kind with the given wire value.
    pub fn from_u16(n: u16) -> (r: Option<ContainerType>)
        ensures
            r == ContainerType::spec_from_u16(n),
    {
        if n == 1 {
            Some(ContainerType::Command)
        } else if n == 2 {
            Some(ContainerType::Data)
        } else if n == 3 {
            Some(ContainerType::Response)
        } else if n == 4 {
            Some(ContainerType::Event)
        } else {
            None
        }
    }
}

/// The parsed header of one PTP container.
#[derive(Debug, Clone, Copy, PartialEq, Eq, Structural)]
pub struct ContainerInfo {
    /// Payload length in bytes: the advertised total length minus the
    /// 12-byte header.
    pub payload_len: usize,
    /// The container kind.
    pub kind: ContainerType,
    /// An operation, response, or event code, depending on `kind`.
    pub code: u16,
    /// The transaction id this container belongs to.
    pub tid: u32,
}

/// The bytes of a container header with the given raw fields.
pub open spec fn header_bytes(total_len: u32, kind: u16, code: u16, tid: u32) -> Seq<u8> {
    enc32(total_len) + enc16(kind) + enc16(code) + enc32(tid)
}

/// Each field of a container header reads back from its bytes.
pub proof fn lemma_header_fields(total_len: u32, kind: u16, code: u16, tid: u32)
    ensures
        header_bytes(total_len, kind, code, tid).len() == 12,
        u32_at(header_bytes(total_len, kind, code, tid), 0) == total_len,
        u16_at(header_bytes(total_len, kind, code, tid), 4) == kind,
        u16_at(header_bytes(total_len, kind, code, tid), 6) == code,
        u32_at(header_bytes(total_len, kind, code, tid), 8) == tid,
{
    let b = header_bytes(total_len, kind, code, tid);
    assert(b.subrange(0, 4) =~= enc32(total_len));
    assert(b.subrange(4, 6) =~= enc16(kind));
    assert(b.subrange(6, 8) =~= enc16(code));
    assert(b.subrange(8, 12) =~= enc32(tid));
    lemma_dec32_enc32(total_len, b, 0);
    lemma_dec16_enc16(kind, b, 4);
    lemma_dec16_enc16(code, b, 6);
    lemma_dec32_enc32(tid, b, 8);
}

impl ContainerInfo {
    /// Parse a container header from the first 12 bytes of `buf`.  A buffer
    /// shorter than the header is an `Io(UnexpectedEof)` error; an
    /// advertised length below 12 or an unknown kind is `Malformed`.
    pub fn parse(buf: &[u8]) -> (r: Result<ContainerInfo, Error>)
        ensures
            buf@.len() < 12 ==> (r matches Err(e) && e == Error::Io(IoErrorKind::UnexpectedEof)),
            buf@.len() >= 12 && u32_at(buf@, 0) < 12 ==> (r matches Err(e) && (e matches
                Error::Malformed(m) && m@ == "invalid container length"@)),
            buf@.len() >= 12 && u32_at(buf@, 0) >= 12 && ContainerType::spec_from_u16(
                u16_at(buf@, 4),
            ) is None ==> (r matches Err(e) && (e matches Error::Malformed(m) && m@
                == "invalid container kind"@)),
            buf@.len() >= 12 && u32_at(buf@, 0) >= 12 ==> (ContainerType::spec_from_u16(
                u16_at(buf@, 4),
            ) matches Some(k) ==> r == Ok::<ContainerInfo, Error>(
                ContainerInfo {
                    payload_len: (u32_at(buf@, 0) - 12) as usize,
                    kind: k,
                    code: u16_at(buf@, 6),
                    tid: u32_at(buf@, 8),
                },
            )),
    {
        let mut r = Reader::new(buf);
        let len = match r.read_ptp_u32() {
            Ok(v) => v,
            Err(e) => {
                return Err(e);
            },
        };
        let kind_raw = match r.read_ptp_u16() {
            Ok(v) => v,
            Err(e) => {
                return Err(e);
            },
        };
        let code = match r.read_ptp_u16() {
            Ok(v) => v,
            Err(e) => {
                return Err(e);
            },
        };
        let tid = match r.read_ptp_u32() {
            Ok(v) => v,
            Err(e) => {
                return Err(e);
            },
        };
        if len < 12 {
            return Err(Error::Malformed("invalid container length".to_owned()));
        }
        let kind = match ContainerType::from_u16(kind_raw) {
            Some(k) => k,
            None => {
                return Err(Error::Malformed("invalid container kind".to_owned()));
            },
        };
        Ok(ContainerInfo { payload_len: (len - 12) as usize, kind, code, tid })
    }

    /// Does this container belong to the given transaction?
    pub fn belongs_to(&self, tid: u32) -> (r: bool)
        ensures
            r == (self.tid == tid),
    {
        self.tid == tid
    }
}

/// Emit the 12-byte header of a container whose payload has the given
/// length: the total length field is the payload length plus 12.
pub fn build_container_header(kind: ContainerType, code: u16, tid: u32, payload_len: u32) -> (r:
    Vec<u8>)
    requires
        payload_len <= u32::MAX - 12,
    ensures
        r@ == header_bytes((payload_len + 12) as u32, kind.spec_to_u16(), code, tid),
        r@.len() == 12,
{
    let mut w = Writer::new();
    w.write_ptp_u32(payload_len + 12);
    w.write_ptp_u16(kind.to_u16());
    w.write_ptp_u16(code);
    w.write_ptp_u32(tid);
    proof {
        assert(Seq::<u8>::empty() + enc32((payload_len + 12) as u32) + enc16(kind.spec_to_u16())
            + enc16(code) + enc32(tid) =~= header_bytes(
            (payload_len + 12) as u32,
            kind.spec_to_u16(),
            code,
            tid,
        ));
    }
    w.into_vec()
}

} // verus!
