//! The typed per-operation layer of a PTP session.
//!
//! Each operation is one transaction: a request builder here fixes the
//! operation code and the `u32` parameter words that the engine sends, and
//! a payload parser turns the data-in payload of the response into the
//! operation's typed result, asserting that every byte of it is consumed
//! where the protocol defines the payload exactly.

use vstd::prelude::*;

use crate::error::Error;
use crate::error::IoErrorKind;
use crate::reader::Reader;
use crate::records::storage_info_dec;
use crate::records::StorageInfo;
use crate::storage::ObjectFormatCode;
use crate::storage::ObjectHandle;
use crate::storage::StorageId;
use crate::wire::dec32;
use crate::wire::dec_vec_u32;

verus! {

/// One PTP operation to be carried out as a transaction: the operation
/// code and its parameter words.
pub struct CommandRequest {
    /// The operation code sent in the Command container.
    pub code: u16,
    /// The parameters, sent as consecutive little-endian `u32` words.
    pub params: Vec<u32>,
}

/// The `u32` parameter word of an optional object format: the format's
/// wire value, or 0 for "any format".
pub open spec fn format_param(format: Option<ObjectFormatCode>) -> u32 {
    match format {
        Some(f) => f.spec_to_u16() as u32,
        None => 0,
    }
}

/// The `u32` parameter word of an optional object handle: its value, or 0
/// for "the whole storage".
pub open spec fn parent_param(parent: Option<ObjectHandle>) -> u32 {
    match parent {
        Some(h) => h.0,
        None => 0,
    }
}

/// The GetDeviceInfo operation: code 0x1001 with three zero parameters.
pub fn get_device_info_request() -> (r: CommandRequest)
    ensures
        r.code == 0x1001,
        r.params@ == seq![0u32, 0u32, 0u32],
{
    let mut params: Vec<u32> = Vec::new();
    params.push(0);
    params.push(0);
    params.push(0);
    proof {
        assert(params@ =~= seq![0u32, 0u32, 0u32]);
    }
    CommandRequest { code: 0x1001, params }
}

/// The OpenSession operation: code 0x1002 carrying the session id 3.
pub fn open_session_request() -> (r: CommandRequest)
    ensures
        r.code == 0x1002,
        r.params@ == seq![3u32, 0u32, 0u32],
{
    let mut params: Vec<u32> = Vec::new();
    params.push(3);
    params.push(0);
    params.push(0);
    proof {
        assert(params@ =~= seq![3u32, 0u32, 0u32]);
    }
    CommandRequest { code: 0x1002, params }
}

/// The CloseSession operation: code 0x1003 with no parameters.
pub fn close_session_request() -> (r: CommandRequest)
    ensures
        r.code == 0x1003,
        r.params@ == Seq::<u32>::empty(),
{
    CommandRequest { code: 0x1003, params: Vec::new() }
}

/// The GetStorageIDs operation: code 0x1004 with no parameters.
pub fn get_storage_ids_request() -> (r: CommandRequest)
    ensures
        r.code == 0x1004,
        r.params@ == Seq::<u32>::empty(),
{
    CommandRequest { code: 0x1004, params: Vec::new() }
}

/// The GetStorageInfo operation: code 0x1005 on one storage.
pub fn get_storage_info_request(storage_id: StorageId) -> (r: CommandRequest)
    ensures
        r.code == 0x1005,
        r.params@ == seq![storage_id.0],
{
    let mut params: Vec<u32> = Vec::new();
    params.push(storage_id.0);
    proof {
        assert(params@ =~= seq![storage_id.0]);
    }
    CommandRequest { code: 0x1005, params }
}

/// The GetNumObjects operation: code 0x1006 on a storage (0xFFFFFFFF for
/// all storages), an optional format, and an optional parent.
pub fn get_num_objects_request(
    storage_id: Option<StorageId>,
    format: Option<ObjectFormatCode>,
    parent: Option<ObjectHandle>,
) -> (r: CommandRequest)
    ensures
        r.code == 0x1006,
        r.params@ == seq![
            (match storage_id {
                Some(s) => s.0,
                None => 0xFFFFFFFFu32,
            }),
            format_param(format),
            parent_param(parent),
        ],
{
    let mut params: Vec<u32> = Vec::new();
    params.push(
        match storage_id {
            Some(s) => s.0,
            None => 0xFFFFFFFF,
        },
    );
    params.push(
        match format {
            Some(f) => f.to_u16() as u32,
            None => 0,
        },
    );
    params.push(
        match parent {
            Some(h) => h.0,
            None => 0,
        },
    );
    proof {
        assert(params@ =~= seq![
            (match storage_id {
                Some(s) => s.0,
                None => 0xFFFFFFFFu32,
            }),
            format_param(format),
            parent_param(parent),
        ]);
    }
    CommandRequest { code: 0x1006, params }
}

/// The GetObjectHandles operation: code 0x1007 on a storage, an optional
/// format, and an optional parent.
pub fn get_object_handles_request(
    storage_id: StorageId,
    format: Option<ObjectFormatCode>,
    parent: Option<ObjectHandle>,
) -> (r: CommandRequest)
    ensures
        r.code == 0x1007,
        r.params@ == seq![storage_id.0, format_param(format), parent_param(parent)],
{
    let mut params: Vec<u32> = Vec::new();
    params.push(storage_id.0);
    params.push(
        match format {
            Some(f) => f.to_u16() as u32,
            None => 0,
        },
    );
    params.push(
        match parent {
            Some(h) => h.0,
            None => 0,
        },
    );
    proof {
        assert(params@ =~= seq![storage_id.0, format_param(format), parent_param(parent)]);
    }
    CommandRequest { code: 0x1007, params }
}

/// The GetObjectInfo operation: code 0x1008 on one object.
pub fn get_object_info_request(handle: ObjectHandle) -> (r: CommandRequest)
    ensures
        r.code == 0x1008,
        r.params@ == seq![handle.0],
{
    let mut params: Vec<u32> = Vec::new();
    params.push(handle.0);
    proof {
        assert(params@ =~= seq![handle.0]);
    }
    CommandRequest { code: 0x1008, params }
}

/// The GetObject operation: code 0x1009 on one object.
pub fn get_object_request(handle: ObjectHandle) -> (r: CommandRequest)
    ensures
        r.code == 0x1009,
        r.params@ == seq![handle.0],
{
    let mut params: Vec<u32> = Vec::new();
    params.push(handle.0);
    proof {
        assert(params@ =~= seq![handle.0]);
    }
    CommandRequest { code: 0x1009, params }
}

/// The GetPartialObject operation: code 0x101B on one object, an offset,
/// and a length.
pub fn get_partial_object_request(handle: ObjectHandle, offset: u32, len: u32) -> (r:
    CommandRequest)
    ensures
        r.code == 0x101B,
        r.params@ == seq![handle.0, offset, len],
{
    let mut params: Vec<u32> = Vec::new();
    params.push(handle.0);
    params.push(offset);
    params.push(len);
    proof {
        assert(params@ =~= seq![handle.0, offset, len]);
    }
    CommandRequest { code: 0x101B, params }
}

/// The SendObjectInfo operation: code 0x100C on a destination storage and
/// parent; the encoded descriptor goes in the data-out phase.
pub fn send_object_info_request(storage: StorageId, parent: ObjectHandle) -> (r: CommandRequest)
    ensures
        r.code == 0x100C,
        r.params@ == seq![storage.0, parent.0],
{
    let mut params: Vec<u32> = Vec::new();
    params.push(storage.0);
    params.push(parent.0);
    proof {
        assert(params@ =~= seq![storage.0, parent.0]);
    }
    CommandRequest { code: 0x100C, params }
}

/// The SendObject operation: code 0x100D with no parameters; the object
/// bytes go in the data-out phase.
pub fn send_object_request() -> (r: CommandRequest)
    ensures
        r.code == 0x100D,
        r.params@ == Seq::<u32>::empty(),
{
    CommandRequest { code: 0x100D, params: Vec::new() }
}

/// Parse a GetStorageIDs payload: a `u32` vector of storage ids, with
/// nothing after it.
#[verifier::loop_isolation(false)]
pub fn parse_storage_ids(data: &[u8]) -> (r: Result<Vec<StorageId>, Error>)
    ensures
        match r {
            Ok(v) => dec_vec_u32(data@, 0) == Some(
                (v@.map_values(|h: StorageId| h.0), data@.len() as int),
            ),
            Err(e) => (match dec_vec_u32(data@, 0) {
                None => e == Error::Io(IoErrorKind::UnexpectedEof),
                Some((_, p)) => p != data@.len() && (e matches Error::Malformed(m) && m@
                    == "trailing bytes"@),
            }),
        },
{
    let mut cur = Reader::new(data);
    let raw = match cur.read_ptp_u32_vec() {
        Ok(v) => v,
        Err(e) => {
            return Err(e);
        },
    };
    match cur.expect_end() {
        Ok(_) => {},
        Err(e) => {
            return Err(e);
        },
    };
    let n = raw.len();
    let mut out: Vec<StorageId> = Vec::new();
    let mut i: usize = 0;
    while i < n
        invariant
            0 <= i <= n,
            out@.len() == i,
            forall|j: int| 0 <= j < i ==> out@[j] == StorageId(raw@[j]),
        decreases n - i,
    {
        out.push(StorageId(raw[i]));
        i = i + 1;
    }
    proof {
        assert(out@.map_values(|h: StorageId| h.0) =~= raw@);
    }
    Ok(out)
}

/// Parse a GetObjectHandles payload: a `u32` vector of object handles,
/// with nothing after it.
#[verifier::loop_isolation(false)]
pub fn parse_object_handles(data: &[u8]) -> (r: Result<Vec<ObjectHandle>, Error>)
    ensures
        match r {
            Ok(v) => dec_vec_u32(data@, 0) == Some(
                (v@.map_values(|h: ObjectHandle| h.0), data@.len() as int),
            ),
            Err(e) => (match dec_vec_u32(data@, 0) {
                None => e == Error::Io(IoErrorKind::UnexpectedEof),
                Some((_, p)) => p != data@.len() && (e matches Error::Malformed(m) && m@
                    == "trailing bytes"@),
            }),
        },
{
    let mut cur = Reader::new(data);
    let raw = match cur.read_ptp_u32_vec() {
        Ok(v) => v,
        Err(e) => {
            return Err(e);
        },
    };
    match cur.expect_end() {
        Ok(_) => {},
        Err(e) => {
            return Err(e);
        },
    };
    let n = raw.len();
    let mut out: Vec<ObjectHandle> = Vec::new();
    let mut i: usize = 0;
    while i < n
        invariant
            0 <= i <= n,
            out@.len() == i,
            forall|j: int| 0 <= j < i ==> out@[j] == ObjectHandle(raw@[j]),
        decreases n - i,
    {
        out.push(ObjectHandle(raw[i]));
        i = i + 1;
    }
    proof {
        assert(out@.map_values(|h: ObjectHandle| h.0) =~= raw@);
    }
    Ok(out)
}

/// Parse a GetNumObjects payload: one `u32` count, with nothing after it.
pub fn parse_num_objects(data: &[u8]) -> (r: Result<u32, Error>)
    ensures
        match r {
            Ok(v) => data@.len() == 4 && dec32(data@, 0) == Some((v, 4int)),
            Err(e) => (if data@.len() < 4 {
                e == Error::Io(IoErrorKind::UnexpectedEof)
            } else {
                data@.len() > 4 && (e matches Error::Malformed(m) && m@ == "trailing bytes"@)
            }),
        },
{
    let mut cur = Reader::new(data);
    let v = match cur.read_ptp_u32() {
        Ok(v) => v,
        Err(e) => {
            return Err(e);
        },
    };
    match cur.expect_end() {
        Ok(_) => {},
        Err(e) => {
            return Err(e);
        },
    };
    Ok(v)
}

/// Parse a SendObjectInfo response payload: the responder's storage id,
/// parent handle, and the new object's handle, with nothing after them.
/// The result is the third word, the handle given to the new object.
pub fn parse_new_object_handle(data: &[u8]) -> (r: Result<ObjectHandle, Error>)
    ensures
        match r {
            Ok(h) => data@.len() == 12 && dec32(data@, 8) == Some((h.0, 12int)),
            Err(e) => (if data@.len() < 12 {
                e == Error::Io(IoErrorKind::UnexpectedEof)
            } else {
                data@.len() > 12 && (e matches Error::Malformed(m) && m@ == "trailing bytes"@)
            }),
        },
{
    let mut cur = Reader::new(data);
    let _storage = match cur.read_ptp_u32() {
        Ok(v) => v,
        Err(e) => {
            return Err(e);
        },
    };
    let _parent = match cur.read_ptp_u32() {
        Ok(v) => v,
        Err(e) => {
            return Err(e);
        },
    };
    let handle = match cur.read_ptp_u32() {
        Ok(v) => v,
        Err(e) => {
            return Err(e);
        },
    };
    match cur.expect_end() {
        Ok(_) => {},
        Err(e) => {
            return Err(e);
        },
    };
    Ok(ObjectHandle(handle))
}

/// Parse a GetStorageInfo payload: a storage descriptor, with nothing
/// after it.
pub fn parse_storage_info(data: &[u8]) -> (r: Result<StorageInfo, Error>)
    ensures
        match r {
            Ok(d) => storage_info_dec(data@, 0) == Some((d@, data@.len() as int)),
            Err(e) => storage_info_dec(data@, 0) is None || (match storage_info_dec(data@, 0) {
                Some((_, p)) => p != data@.len() && (e matches Error::Malformed(m) && m@
                    == "trailing bytes"@),
                None => true,
            }),
        },
{
    let mut cur = Reader::new(data);
    let info = match StorageInfo::decode(&mut cur) {
        Ok(v) => v,
        Err(e) => {
            return Err(e);
        },
    };
    match cur.expect_end() {
        Ok(_) => {},
        Err(e) => {
            return Err(e);
        },
    };
    Ok(info)
}

} // verus!
