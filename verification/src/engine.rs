//! The decision logic of the PTP-over-USB transaction engine.
//!
//! A transaction runs as Command, optional Data-out, and a read loop that
//! ends at the Response container.  The functions here compute every
//! decision of that protocol — what bytes each bulk-out transfer carries,
//! how an incoming container advances the read phase, when further bulk
//! reads are needed, and how interrupt transfers become events — while the
//! transfers themselves are performed by the surrounding application.

use vstd::prelude::*;
use vstd::pervasive::unreached;

use crate::container::build_container_header;
use crate::container::header_bytes;
use crate::container::ContainerInfo;
use crate::container::ContainerType;
use crate::error::Error;
use crate::error::UsbError;
use crate::event::event_params;
use crate::event::Event;
use crate::event::EventCode;
use crate::response::ResponseCode;
use crate::wire::enc_seq;
use crate::wire::enc_u32f;
use crate::wire::u16_at;
use crate::wire::u32_at;

verus! {

/// The size of each bulk-out chunk: 1 MiB, a multiple of every bulk
/// endpoint's maximum packet size.
pub const CHUNK_SIZE: usize = 1048576;

/// The size of the stack buffer used for the first bulk-in read of a
/// transaction.
pub const BULK_READ_BUF_SIZE: usize = 8192;

/// The payload of a Command container: the parameters as consecutive
/// little-endian `u32` words.
pub fn encode_params(params: &[u32]) -> (r: Vec<u8>)
    ensures
        r@ == enc_seq(params@, enc_u32f()),
        r@.len() == 4 * params@.len(),
{
    let n = params.len();
    let mut w = crate::writer::Writer::new();
    proof {
        assert(params@.take(0).flat_map(enc_u32f()) =~= Seq::<u8>::empty());
        assert(w.bytes() =~= enc_seq(params@.take(0), enc_u32f()));
    }
    let mut i: usize = 0;
    while i < n
        invariant
            0 <= i <= n,
            n == params@.len(),
            w.bytes() == enc_seq(params@.take(i as int), enc_u32f()),
            w.bytes().len() == 4 * i,
        decreases n - i,
    {
        w.write_ptp_u32(params[i]);
        proof {
            params@.lemma_flat_map_take_append(enc_u32f(), i as int);
            assert(w.bytes() =~= enc_seq(params@.take(i as int + 1), enc_u32f()));
        }
        i = i + 1;
    }
    proof {
        assert(params@.take(n as int) =~= params@);
    }
    w.into_vec()
}

/// How many bulk-out transfers a payload of `rem` bytes still needs after
/// the first chunk.
pub open spec fn extra_chunks(rem: nat) -> nat
    decreases rem,
{
    if rem == 0 {
        0
    } else if rem <= CHUNK_SIZE {
        1
    } else {
        1 + extra_chunks((rem - CHUNK_SIZE) as nat)
    }
}

/// The number of bulk-out transfers that carry a container with a payload
/// of `n` bytes: the first chunk holds the header and up to
/// `CHUNK_SIZE - 12` payload bytes, each further chunk up to `CHUNK_SIZE`.
pub open spec fn chunk_count(n: nat) -> nat {
    if n <= CHUNK_SIZE - 12 {
        1
    } else {
        1 + extra_chunks((n - (CHUNK_SIZE - 12)) as nat)
    }
}

/// A payload fits in a single bulk-out transfer exactly when it is no
/// longer than a chunk minus the container header.
pub proof fn lemma_single_chunk(n: nat)
    ensures
        chunk_count(n) == 1 <==> n <= CHUNK_SIZE - 12,
        n > CHUNK_SIZE - 12 && n <= 2 * CHUNK_SIZE - 12 ==> chunk_count(n) == 2,
{
}

/// The concatenation of a sequence of byte buffers.
pub open spec fn concat_chunks(cs: Seq<Seq<u8>>) -> Seq<u8> {
    cs.flatten()
}

/// Split one outbound container into the bulk-out transfers that carry it.
/// The first transfer holds the 12-byte header and up to `CHUNK_SIZE - 12`
/// payload bytes; each later transfer holds up to `CHUNK_SIZE` payload
/// bytes.  Together the transfers carry exactly the header followed by the
/// whole payload.
#[verifier::loop_isolation(false)]
#[verifier::rlimit(50)]
pub fn build_bulk_chunks(kind: ContainerType, code: u16, tid: u32, payload: &[u8]) -> (r: Vec<
    Vec<u8>,
>)
    requires
        payload@.len() + 12 <= u32::MAX,
    ensures
        concat_chunks(r.deep_view()) == header_bytes(
            (payload@.len() + 12) as u32,
            kind.spec_to_u16(),
            code,
            tid,
        ) + payload@,
        r.deep_view().len() == chunk_count(payload@.len()),
        forall|i: int| 0 <= i < r.deep_view().len() ==> #[trigger] r.deep_view()[i].len()
            <= CHUNK_SIZE,
{
    broadcast use vstd::seq_lib::group_seq_properties;
    broadcast use Seq::lemma_flatten_push;
    broadcast use Seq::lemma_flatten_singleton;

    let ghost target = header_bytes((payload@.len() + 12) as u32, kind.spec_to_u16(), code, tid)
        + payload@;
    let plen = payload.len();
    let first_n: usize = if plen < CHUNK_SIZE - 12 {
        plen
    } else {
        CHUNK_SIZE - 12
    };
    let mut first = build_container_header(kind, code, tid, plen as u32);
    let mut i: usize = 0;
    while i < first_n
        invariant
            0 <= i <= first_n <= plen,
            plen == payload@.len(),
            first@ == header_bytes((payload@.len() + 12) as u32, kind.spec_to_u16(), code, tid)
                + payload@.take(i as int),
        decreases first_n - i,
    {
        first.push(payload[i]);
        proof {
            assert(first@ =~= header_bytes(
                (payload@.len() + 12) as u32,
                kind.spec_to_u16(),
                code,
                tid,
            ) + payload@.take(i as int + 1));
        }
        i = i + 1;
    }
    let mut chunks: Vec<Vec<u8>> = Vec::new();
    let ghost first_view = first@;
    chunks.push(first);
    proof {
        assert(chunks@.len() == 1);
        assert(chunks.deep_view().len() == 1);
        assert(chunks.deep_view()[0] == first_view);
        assert(chunks.deep_view() =~= seq![
            header_bytes((payload@.len() + 12) as u32, kind.spec_to_u16(), code, tid)
                + payload@.take(first_n as int),
        ]);
        assert(concat_chunks(chunks.deep_view()) =~= target.take(12 + first_n as int));
    }
    let mut pos: usize = first_n;
    while pos < plen
        invariant
            first_n <= pos <= plen,
            plen == payload@.len(),
            concat_chunks(chunks.deep_view()) == target.take(12 + pos as int),
            chunks.deep_view().len() + extra_chunks((plen - pos) as nat) == chunk_count(
                payload@.len(),
            ),
            forall|i: int| 0 <= i < chunks.deep_view().len() ==> #[trigger] chunks.deep_view()[i].len()
                <= CHUNK_SIZE,
        decreases plen - pos,
    {
        let end: usize = if plen - pos < CHUNK_SIZE {
            plen
        } else {
            pos + CHUNK_SIZE
        };
        let part = vstd::slice::slice_to_vec(vstd::slice::slice_subrange(payload, pos, end));
        let ghost part_view = part@;
        let ghost prev = chunks.deep_view();
        chunks.push(part);
        proof {
            assert(chunks@.len() == prev.len() + 1);
            assert(chunks.deep_view().len() == prev.len() + 1);
            assert(chunks.deep_view()[prev.len() as int] == part_view);
            assert(forall|j: int| 0 <= j < prev.len() ==> chunks.deep_view()[j] == prev[j]);
            assert(chunks.deep_view() =~= prev.push(payload@.subrange(pos as int, end as int)));
            assert(concat_chunks(chunks.deep_view()) =~= target.take(12 + end as int));
        }
        pos = end;
    }
    proof {
        assert(target.take(12 + plen as int) =~= target);
    }
    chunks
}

/// What one incoming bulk container does to the read phase of a
/// transaction.
pub enum PhaseStep {
    /// Keep reading; the carried buffer is the data-in payload retained so
    /// far.
    Continue(Vec<u8>),
    /// The Response container arrived with a success code: the transaction
    /// is complete and yields the retained data-in payload.
    Complete(Vec<u8>),
}

/// Advance the read phase by one received container.  A container of a
/// foreign transaction id is a protocol error; a Data container replaces
/// the retained data-in payload; a Response container ends the transaction,
/// successfully exactly when its code is the standard success code 0x2001;
/// any other kind is ignored.
pub fn read_phase_step(retained: Vec<u8>, cinfo: &ContainerInfo, payload: Vec<u8>, tid: u32) -> (r:
    Result<PhaseStep, Error>)
    ensures
        cinfo.tid != tid ==> (r matches Err(e) && (e matches Error::Malformed(m) && m@
            == "mismatched txnid"@)),
        cinfo.tid == tid && cinfo.kind is Data ==> (r matches Ok(s) && (s matches
            PhaseStep::Continue(d) && d@ == payload@)),
        cinfo.tid == tid && cinfo.kind is Response && cinfo.code == 0x2001 ==> (r matches Ok(s) && (
        s matches PhaseStep::Complete(d) && d@ == retained@)),
        cinfo.tid == tid && cinfo.kind is Response && cinfo.code != 0x2001 ==> (r matches Err(e)
            && (e matches Error::Response(rc) && Some(rc) == ResponseCode::spec_from_u16(
            cinfo.code,
        ))),
        cinfo.tid == tid && (cinfo.kind is Command || cinfo.kind is Event) ==> (r matches Ok(s) && (
        s matches PhaseStep::Continue(d) && d@ == retained@)),
    {
    if !cinfo.belongs_to(tid) {
        return Err(Error::Malformed("mismatched txnid".to_owned()));
    }
    match cinfo.kind {
        ContainerType::Data => Ok(PhaseStep::Continue(payload)),
        ContainerType::Response => {
            let code = match ResponseCode::from_u16(cinfo.code) {
                Some(c) => c,
                None => unreached(),
            };
            if cinfo.code == 0x2001 {
                Ok(PhaseStep::Complete(retained))
            } else {
                Err(Error::Response(code))
            }
        },
        _ => Ok(PhaseStep::Continue(retained)),
    }
}

/// Split the bytes of the first bulk-in transfer of a read phase into the
/// container header and the initial payload bytes.  A container that
/// advertises no payload yields an empty buffer whatever follows the
/// header; otherwise the payload starts with everything past the header.
pub fn split_initial_bulk(buf: &[u8]) -> (r: Result<(ContainerInfo, Vec<u8>), Error>)
    ensures
        match r {
            Ok((c, p)) => buf@.len() >= 12 && u32_at(buf@, 0) >= 12
                && ContainerType::spec_from_u16(u16_at(buf@, 4)) == Some(c.kind) && c.payload_len
                == u32_at(buf@, 0) - 12 && c.code == u16_at(buf@, 6) && c.tid == u32_at(buf@, 8) && (
            if c.payload_len == 0 {
                p@ == Seq::<u8>::empty()
            } else {
                p@ == buf@.skip(12)
            }),
            Err(_) => buf@.len() < 12 || u32_at(buf@, 0) < 12 || ContainerType::spec_from_u16(
                u16_at(buf@, 4),
            ) is None,
        },
{
    let cinfo = match ContainerInfo::parse(buf) {
        Ok(c) => c,
        Err(e) => {
            return Err(e);
        },
    };
    if cinfo.payload_len == 0 {
        return Ok((cinfo, Vec::new()));
    }
    let rest = vstd::slice::slice_subrange(buf, 12, buf.len());
    Ok((cinfo, vstd::slice::slice_to_vec(rest)))
}

/// After the first bulk-in transfer, further reads are needed when the
/// received payload is still short of the advertised length, or when the
/// transfer filled the whole first-read buffer, so that a trailing
/// zero-length packet is still to be drained.
pub fn more_reads_needed(received: usize, payload_len: usize, initial_n: usize) -> (r: bool)
    ensures
        r == (received < payload_len || initial_n == BULK_READ_BUF_SIZE),
{
    received < payload_len || initial_n == BULK_READ_BUF_SIZE
}

/// The size of the next bulk-in read: what remains of the advertised
/// payload plus one spare byte that absorbs a zero-length packet, capped at
/// one chunk.
pub fn next_read_len(received: usize, payload_len: usize) -> (r: usize)
    requires
        received <= payload_len,
        payload_len < usize::MAX,
    ensures
        r == if payload_len + 1 - received < CHUNK_SIZE as int {
            payload_len + 1 - received
        } else {
            CHUNK_SIZE as int
        },
{
    let remaining = payload_len + 1 - received;
    if remaining < CHUNK_SIZE {
        remaining
    } else {
        CHUNK_SIZE
    }
}

/// Parse one interrupt transfer into its container header and payload.  An
/// event container with no payload at all is a protocol error.
pub fn parse_interrupt(buf: &[u8]) -> (r: Result<(ContainerInfo, Vec<u8>), Error>)
    ensures
        match r {
            Ok((c, p)) => buf@.len() >= 12 && u32_at(buf@, 0) > 12 && ContainerType::spec_from_u16(
                u16_at(buf@, 4),
            ) == Some(c.kind) && c.payload_len == u32_at(buf@, 0) - 12 && c.code == u16_at(buf@, 6)
                && c.tid == u32_at(buf@, 8) && p@ == buf@.skip(12),
            Err(e) => buf@.len() < 12 || u32_at(buf@, 0) < 12 || ContainerType::spec_from_u16(
                u16_at(buf@, 4),
            ) is None || (u32_at(buf@, 0) == 12 && e == Error::NoEventPayload),
        },
{
    let cinfo = match ContainerInfo::parse(buf) {
        Ok(c) => c,
        Err(e) => {
            return Err(e);
        },
    };
    if cinfo.payload_len == 0 {
        return Err(Error::NoEventPayload);
    }
    let rest = vstd::slice::slice_subrange(buf, 12, buf.len());
    Ok((cinfo, vstd::slice::slice_to_vec(rest)))
}

/// Map the outcome of one interrupt read: a transport timeout means no
/// event is pending and is not an error; everything else passes through.
pub fn event_read_outcome(input: Result<(ContainerInfo, Vec<u8>), Error>) -> (r: Result<
    Option<(ContainerInfo, Vec<u8>)>,
    Error,
>)
    ensures
        match input {
            Ok((c, p)) => r matches Ok(o) && (o matches Some((c2, p2)) && c2 == c && p2@ == p@),
            Err(e) => if e == Error::Usb(UsbError::Timeout) {
                r == Ok::<Option<(ContainerInfo, Vec<u8>)>, Error>(None)
            } else {
                r matches Err(e2) && e2 == e
            },
        },
{
    match input {
        Ok(v) => Ok(Some(v)),
        Err(Error::Usb(UsbError::Timeout)) => Ok(None),
        Err(e) => Err(e),
    }
}

/// What one parsed interrupt container yields: an Event container becomes
/// an [`Event`] (or a `BadEventCode` error), any other kind is ignored and
/// polling continues within the same call.
pub fn event_step(cinfo: &ContainerInfo, payload: &[u8]) -> (r: Result<Option<Event>, Error>)
    ensures
        !(cinfo.kind is Event) ==> r == Ok::<Option<Event>, Error>(None),
        cinfo.kind is Event ==> match r {
            Ok(o) => o matches Some(ev) && EventCode::spec_from_u16(cinfo.code) == Some(ev.code)
                && ev.params@ == event_params(payload@),
            Err(e) => EventCode::spec_from_u16(cinfo.code) is None && e == Error::BadEventCode,
        },
{
    match cinfo.kind {
        ContainerType::Event => match Event::new(cinfo.code, payload) {
            Ok(ev) => Ok(Some(ev)),
            Err(e) => Err(e),
        },
        _ => Ok(None),
    }
}

/// The direction of a USB endpoint.
#[derive(Debug, Clone, Copy, PartialEq, Eq, Structural)]
pub enum EndpointDirection {
    /// Device to host.
    In,
    /// Host to device.
    Out,
}

/// The transfer type of a USB endpoint.
#[derive(Debug, Clone, Copy, PartialEq, Eq, Structural)]
pub enum EndpointKind {
    Control,
    Isochronous,
    Bulk,
    Interrupt,
}

/// What the engine reads of a USB endpoint descriptor.
#[derive(Debug, Clone, Copy, PartialEq, Eq, Structural)]
pub struct EndpointDesc {
    /// The endpoint address.
    pub address: u8,
    /// The direction of the endpoint.
    pub direction: EndpointDirection,
    /// The transfer type of the endpoint.
    pub kind: EndpointKind,
}

/// What the engine reads of a USB interface descriptor.
#[derive(Debug, Clone, Copy, PartialEq, Eq, Structural)]
pub struct InterfaceDesc {
    /// The interface number.
    pub number: u8,
    /// The alternate setting number.
    pub setting: u8,
    /// The interface class code; 6 is the Still Image class.
    pub class_code: u8,
}

/// The address of the first endpoint with the given direction and transfer
/// type, if any.
pub open spec fn spec_find_endpoint(
    eps: Seq<EndpointDesc>,
    direction: EndpointDirection,
    kind: EndpointKind,
) -> Option<u8>
    decreases eps.len(),
{
    if eps.len() == 0 {
        None
    } else if eps[0].direction == direction && eps[0].kind == kind {
        Some(eps[0].address)
    } else {
        spec_find_endpoint(eps.drop_first(), direction, kind)
    }
}

/// Find the address of the first endpoint with the given direction and
/// transfer type.
#[verifier::loop_isolation(false)]
pub fn find_endpoint(eps: &[EndpointDesc], direction: EndpointDirection, kind: EndpointKind) -> (r:
    Option<u8>)
    ensures
        r == spec_find_endpoint(eps@, direction, kind),
{
    let n = eps.len();
    proof {
        assert(eps@.skip(0) =~= eps@);
    }
    let mut i: usize = 0;
    while i < n
        invariant
            0 <= i <= n,
            spec_find_endpoint(eps@, direction, kind) == spec_find_endpoint(
                eps@.skip(i as int),
                direction,
                kind,
            ),
        decreases n - i,
    {
        let e = eps[i];
        proof {
            assert(eps@.skip(i as int)[0] == eps@[i as int]);
            assert(eps@.skip(i as int).drop_first() =~= eps@.skip(i as int + 1));
        }
        if matches!(e.direction, EndpointDirection::In) == matches!(
            direction,
            EndpointDirection::In,
        ) && e.kind.same(&kind) {
            proof {
                assert(e.direction == direction);
            }
            return Some(e.address);
        }
        proof {
            assert(eps@[i as int].direction != direction || eps@[i as int].kind != kind);
        }
        i = i + 1;
    }
    proof {
        assert(eps@.skip(n as int) =~= Seq::<EndpointDesc>::empty());
    }
    None
}

impl EndpointKind {
    /// Whether two transfer types are the same.
    pub fn same(&self, other: &EndpointKind) -> (r: bool)
        ensures
            r == (self == other),
    {
        match (self, other) {
            (EndpointKind::Control, EndpointKind::Control) => true,
            (EndpointKind::Isochronous, EndpointKind::Isochronous) => true,
            (EndpointKind::Bulk, EndpointKind::Bulk) => true,
            (EndpointKind::Interrupt, EndpointKind::Interrupt) => true,
            _ => false,
        }
    }
}

/// The index of the first interface whose class code is the Still Image
/// class (6), if any.
pub open spec fn spec_find_imaging_interface(ifaces: Seq<InterfaceDesc>) -> Option<int>
    decreases ifaces.len(),
{
    if ifaces.len() == 0 {
        None
    } else if ifaces[0].class_code == 6 {
        Some(0int)
    } else {
        match spec_find_imaging_interface(ifaces.drop_first()) {
            None => None,
            Some(j) => Some(j + 1),
        }
    }
}

/// Find the first interface whose class code is the Still Image class (6).
#[verifier::loop_isolation(false)]
pub fn find_imaging_interface(ifaces: &[InterfaceDesc]) -> (r: Option<usize>)
    ensures
        match r {
            Some(i) => spec_find_imaging_interface(ifaces@) == Some(i as int),
            None => spec_find_imaging_interface(ifaces@) is None,
        },
{
    let n = ifaces.len();
    let mut i: usize = 0;
    while i < n
        invariant
            0 <= i <= n,
            forall|j: int| 0 <= j < i ==> ifaces@[j].class_code != 6,
        decreases n - i,
    {
        if ifaces[i].class_code == 6 {
            proof {
                lemma_find_imaging_prefix(ifaces@, i as int);
            }
            return Some(i);
        }
        i = i + 1;
    }
    proof {
        lemma_find_imaging_none(ifaces@);
    }
    None
}

/// When every interface before `i` has another class and interface `i` has
/// the imaging class, the search finds exactly `i`.
proof fn lemma_find_imaging_prefix(ifaces: Seq<InterfaceDesc>, i: int)
    requires
        0 <= i < ifaces.len(),
        forall|j: int| 0 <= j < i ==> ifaces[j].class_code != 6,
        ifaces[i].class_code == 6,
    ensures
        spec_find_imaging_interface(ifaces) == Some(i),
    decreases i,
{
    if i == 0 {
    } else {
        assert(ifaces.drop_first()[i - 1] == ifaces[i]);
        assert(forall|j: int| 0 <= j < i - 1 ==> ifaces.drop_first()[j] == ifaces[j + 1]);
        lemma_find_imaging_prefix(ifaces.drop_first(), i - 1);
    }
}

/// When no interface has the imaging class, the search finds none.
proof fn lemma_find_imaging_none(ifaces: Seq<InterfaceDesc>)
    requires
        forall|j: int| 0 <= j < ifaces.len() ==> ifaces[j].class_code != 6,
    ensures
        spec_find_imaging_interface(ifaces) is None,
    decreases ifaces.len(),
{
    if ifaces.len() > 0 {
        assert(forall|j: int| 0 <= j < ifaces.drop_first().len() ==> ifaces.drop_first()[j]
            == ifaces[j + 1]);
        lemma_find_imaging_none(ifaces.drop_first());
    }
}

} // verus!
