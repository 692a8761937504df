//! The PTP descriptor records: `DeviceInfo`, `ObjectInfo`, `StorageInfo`,
//! and `PropInfo`, decoded (and for `ObjectInfo` also encoded) in exact PTP
//! wire field order.
//!
//! Each record has a mathematical view and a specification decoder; the
//! executable decoders are verified against them, and the round-trip laws
//! state that a well-formed record decodes back from its own encoding,
//! consuming every byte of it.

use vstd::prelude::*;
use vstd::pervasive::unreached;

use crate::data::data_dec;
use crate::data::data_decf;
use crate::data::Data;
use crate::data::DataView;
use crate::error::Error;
use crate::error::IoErrorKind;
use crate::reader::Reader;
use crate::storage::AccessType;
use crate::storage::AssociationCode;
use crate::storage::FilesystemType;
use crate::storage::ObjectFormatCode;
use crate::storage::StorageType;
use crate::utf16::utf16;
use crate::wire::dec16;
use crate::wire::dec32;
use crate::wire::dec64;
use crate::wire::dec8;
use crate::wire::dec_n;
use crate::wire::dec_str;
use crate::wire::dec_vec_u16;
use crate::wire::enc16;
use crate::wire::enc32;
use crate::wire::enc_str;
use crate::wire::enc_vec_u16;
use crate::wire::lemma_dec16_enc16;
use crate::wire::lemma_dec32_enc32;
use crate::wire::lemma_dec_str_enc_str_at;
use crate::wire::lemma_dec_vec_enc_vec_u16_at;
use crate::wire::lemma_enc_seq_len;
use crate::wire::lemma_subrange_concat;
use crate::wire::enc_u16f;
use crate::writer::Writer;

verus! {

/// The PTP device descriptor: versions, vendor extension, supported codes, and identity strings.
#[derive(Debug, Clone)]
pub struct DeviceInfo {
    pub version: u16,
    pub vendor_ex_id: u32,
    pub vendor_ex_version: u16,
    pub vendor_extension_desc: String,
    pub functional_mode: u16,
    pub operations_supported: Vec<u16>,
    pub events_supported: Vec<u16>,
    pub device_properties_supported: Vec<u16>,
    pub capture_formats: Vec<u16>,
    pub image_formats: Vec<u16>,
    pub manufacturer: String,
    pub model: String,
    pub device_version: String,
    pub serial_number: String,
}

/// The mathematical view of a [`DeviceInfo`].
pub struct DeviceInfoView {
    pub version: u16,
    pub vendor_ex_id: u32,
    pub vendor_ex_version: u16,
    pub vendor_extension_desc: Seq<char>,
    pub functional_mode: u16,
    pub operations_supported: Seq<u16>,
    pub events_supported: Seq<u16>,
    pub device_properties_supported: Seq<u16>,
    pub capture_formats: Seq<u16>,
    pub image_formats: Seq<u16>,
    pub manufacturer: Seq<char>,
    pub model: Seq<char>,
    pub device_version: Seq<char>,
    pub serial_number: Seq<char>,
}

impl View for DeviceInfo {
    type V = DeviceInfoView;

    open spec fn view(&self) -> DeviceInfoView {
        DeviceInfoView {
            version: self.version,
            vendor_ex_id: self.vendor_ex_id,
            vendor_ex_version: self.vendor_ex_version,
            vendor_extension_desc: self.vendor_extension_desc@,
            functional_mode: self.functional_mode,
            operations_supported: self.operations_supported@,
            events_supported: self.events_supported@,
            device_properties_supported: self.device_properties_supported@,
            capture_formats: self.capture_formats@,
            image_formats: self.image_formats@,
            manufacturer: self.manufacturer@,
            model: self.model@,
            device_version: self.device_version@,
            serial_number: self.serial_number@,
        }
    }
}

impl DeviceInfoView {
    /// Every string fits the PTP length byte and every vector fits the
    /// `u32` count prefix.
    pub open spec fn wf(self) -> bool {
        &&& utf16(self.vendor_extension_desc).len() <= 127
        &&& self.operations_supported.len() <= u32::MAX
        &&& self.events_supported.len() <= u32::MAX
        &&& self.device_properties_supported.len() <= u32::MAX
        &&& self.capture_formats.len() <= u32::MAX
        &&& self.image_formats.len() <= u32::MAX
        &&& utf16(self.manufacturer).len() <= 127
        &&& utf16(self.model).len() <= 127
        &&& utf16(self.device_version).len() <= 127
        &&& utf16(self.serial_number).len() <= 127
    }
}

/// The specification decoder of a device descriptor, from the start of a
/// buffer.
pub open spec fn device_info_dec(b: Seq<u8>) -> Option<(DeviceInfoView, int)> {
    match dec16(b, 0) {
        None => None,
        Some((version, p1)) =>
        match dec32(b, p1) {
            None => None,
            Some((vendor_ex_id, p2)) =>
            match dec16(b, p2) {
                None => None,
                Some((vendor_ex_version, p3)) =>
                match dec_str(b, p3) {
                    None => None,
                    Some((vendor_extension_desc, p4)) =>
                    match dec16(b, p4) {
                        None => None,
                        Some((functional_mode, p5)) =>
                        match dec_vec_u16(b, p5) {
                            None => None,
                            Some((operations_supported, p6)) =>
                            match dec_vec_u16(b, p6) {
                                None => None,
                                Some((events_supported, p7)) =>
                                match dec_vec_u16(b, p7) {
                                    None => None,
                                    Some((device_properties_supported, p8)) =>
                                    match dec_vec_u16(b, p8) {
                                        None => None,
                                        Some((capture_formats, p9)) =>
                                        match dec_vec_u16(b, p9) {
                                            None => None,
                                            Some((image_formats, p10)) =>
                                            match dec_str(b, p10) {
                                                None => None,
                                                Some((manufacturer, p11)) =>
                                                match dec_str(b, p11) {
                                                    None => None,
                                                    Some((model, p12)) =>
                                                    match dec_str(b, p12) {
                                                        None => None,
                                                        Some((device_version, p13)) =>
                                                        match dec_str(b, p13) {
                                                            None => None,
                                                            Some((serial_number, p14)) =>
    Some((DeviceInfoView { version, vendor_ex_id, vendor_ex_version, vendor_extension_desc, functional_mode, operations_supported, events_supported, device_properties_supported, capture_formats, image_formats, manufacturer, model, device_version, serial_number }, p14))
    },
    },
    },
    },
    },
    },
    },
    },
    },
    },
    },
    },
    },
    }
}

/// One stretch of the device descriptor encoding.
#[verifier::opaque]
pub open spec fn device_info_enc_a(v: DeviceInfoView) -> Seq<u8> {
    enc16(v.version) + (enc32(v.vendor_ex_id) + (enc16(v.vendor_ex_version) + (enc_str(v.vendor_extension_desc) + (enc16(v.functional_mode)))))
}

/// One stretch of the device descriptor encoding.
#[verifier::opaque]
pub open spec fn device_info_enc_b(v: DeviceInfoView) -> Seq<u8> {
    enc_vec_u16(v.operations_supported) + (enc_vec_u16(v.events_supported) + (enc_vec_u16(v.device_properties_supported) + (enc_vec_u16(v.capture_formats) + (enc_vec_u16(v.image_formats)))))
}

/// One stretch of the device descriptor encoding.
#[verifier::opaque]
pub open spec fn device_info_enc_c(v: DeviceInfoView) -> Seq<u8> {
    enc_str(v.manufacturer) + (enc_str(v.model) + (enc_str(v.device_version) + (enc_str(v.serial_number))))
}

/// The wire encoding of a device descriptor.
pub open spec fn device_info_enc(v: DeviceInfoView) -> Seq<u8>
    recommends
        v.wf(),
{
    device_info_enc_a(v) + device_info_enc_b(v) + device_info_enc_c(v)
}

impl DeviceInfo {
    /// Decode a device descriptor from a byte buffer, in exact PTP wire
    /// field order.  Succeeds exactly when the specification decoder does;
    /// it can fail only on a short buffer or on invalid UTF-16 in one of
    /// the strings.
    #[verifier::rlimit(100)]
    pub fn decode(buf: &[u8]) -> (r: Result<DeviceInfo, Error>)
        ensures
            match r {
                Ok(d) => device_info_dec(buf@) matches Some((v, p)) && v == d@,
                Err(e) => device_info_dec(buf@) is None && (e == Error::Io(
                    IoErrorKind::UnexpectedEof,
                ) || (e matches Error::Malformed(m) && m@ == "invalid utf16 data"@)),
            },
    {
        let mut cur = Reader::new(buf);
        let version = match cur.read_ptp_u16() {
            Ok(v) => v,
            Err(e) => {
                return Err(e);
            },
        };
        let vendor_ex_id = match cur.read_ptp_u32() {
            Ok(v) => v,
            Err(e) => {
                return Err(e);
            },
        };
        let vendor_ex_version = match cur.read_ptp_u16() {
            Ok(v) => v,
            Err(e) => {
                return Err(e);
            },
        };
        let vendor_extension_desc = match cur.read_ptp_str() {
            Ok(v) => v,
            Err(e) => {
                return Err(e);
            },
        };
        let functional_mode = match cur.read_ptp_u16() {
            Ok(v) => v,
            Err(e) => {
                return Err(e);
            },
        };
        let operations_supported = match cur.read_ptp_u16_vec() {
            Ok(v) => v,
            Err(e) => {
                return Err(e);
            },
        };
        let events_supported = match cur.read_ptp_u16_vec() {
            Ok(v) => v,
            Err(e) => {
                return Err(e);
            },
        };
        let device_properties_supported = match cur.read_ptp_u16_vec() {
            Ok(v) => v,
            Err(e) => {
                return Err(e);
            },
        };
        let capture_formats = match cur.read_ptp_u16_vec() {
            Ok(v) => v,
            Err(e) => {
                return Err(e);
            },
        };
        let image_formats = match cur.read_ptp_u16_vec() {
            Ok(v) => v,
            Err(e) => {
                return Err(e);
            },
        };
        let manufacturer = match cur.read_ptp_str() {
            Ok(v) => v,
            Err(e) => {
                return Err(e);
            },
        };
        let model = match cur.read_ptp_str() {
            Ok(v) => v,
            Err(e) => {
                return Err(e);
            },
        };
        let device_version = match cur.read_ptp_str() {
            Ok(v) => v,
            Err(e) => {
                return Err(e);
            },
        };
        let serial_number = match cur.read_ptp_str() {
            Ok(v) => v,
            Err(e) => {
                return Err(e);
            },
        };
        Ok(DeviceInfo { version, vendor_ex_id, vendor_ex_version, vendor_extension_desc, functional_mode, operations_supported, events_supported, device_properties_supported, capture_formats, image_formats, manufacturer, model, device_version, serial_number })
    }
}

/// Decoding this stretch of fields in place gives them back.
#[verifier::rlimit(100)]
#[verifier::spinoff_prover]
proof fn lemma_device_info_round_trip_seg_0(v: DeviceInfoView, b: Seq<u8>, i: int)
    requires
        v.wf(),
        0 <= i,
        i + device_info_enc_a(v).len() <= b.len(),
        b.subrange(i, i + device_info_enc_a(v).len()) == device_info_enc_a(v),
    ensures
        dec16(b, i) == Some((v.version, i + 2)),
        dec32(b, i + 2) == Some((v.vendor_ex_id, i + 2 + 4)),
        dec16(b, i + 2 + 4) == Some((v.vendor_ex_version, i + 2 + 4 + 2)),
        dec_str(b, i + 2 + 4 + 2) == Some((v.vendor_extension_desc, i + 2 + 4 + 2 + enc_str(v.vendor_extension_desc).len())),
        dec16(b, i + 2 + 4 + 2 + enc_str(v.vendor_extension_desc).len()) == Some((v.functional_mode, i + 2 + 4 + 2 + enc_str(v.vendor_extension_desc).len() + 2)),
        device_info_enc_a(v).len() == i + 2 + 4 + 2 + enc_str(v.vendor_extension_desc).len() + 2 - i,
{
    reveal(device_info_enc_a);
    let e1 = enc16(v.version);
    let e2 = enc32(v.vendor_ex_id);
    let e3 = enc16(v.vendor_ex_version);
    let e4 = enc_str(v.vendor_extension_desc);
    let e5 = enc16(v.functional_mode);
    let t5 = e5;
    let t4 = e4 + t5;
    let t3 = e3 + t4;
    let t2 = e2 + t3;
    let t1 = e1 + t2;
    assert(forall|x: u16| (#[trigger] (enc_u16f())(x)).len() == 2);
    let p0 = i;
    let p1 = p0 + e1.len();
    let p2 = p1 + e2.len();
    let p3 = p2 + e3.len();
    let p4 = p3 + e4.len();
    let p5 = p4 + e5.len();
    lemma_subrange_concat(b, p0, e1, t2);
    lemma_dec16_enc16(v.version, b, p0);
    lemma_subrange_concat(b, p1, e2, t3);
    lemma_dec32_enc32(v.vendor_ex_id, b, p1);
    lemma_subrange_concat(b, p2, e3, t4);
    lemma_dec16_enc16(v.vendor_ex_version, b, p2);
    lemma_subrange_concat(b, p3, e4, t5);
    lemma_dec_str_enc_str_at(v.vendor_extension_desc, b, p3);
    lemma_dec16_enc16(v.functional_mode, b, p4);
}

/// Decoding this stretch of fields in place gives them back.
#[verifier::rlimit(100)]
#[verifier::spinoff_prover]
proof fn lemma_device_info_round_trip_seg_1(v: DeviceInfoView, b: Seq<u8>, i: int)
    requires
        v.wf(),
        0 <= i,
        i + device_info_enc_b(v).len() <= b.len(),
        b.subrange(i, i + device_info_enc_b(v).len()) == device_info_enc_b(v),
    ensures
        dec_vec_u16(b, i) == Some((v.operations_supported, i + 4 + 2 * v.operations_supported.len())),
        dec_vec_u16(b, i + (4 + 2 * v.operations_supported.len())) == Some((v.events_supported, i + (4 + 2 * v.operations_supported.len()) + 4 + 2 * v.events_supported.len())),
        dec_vec_u16(b, i + (4 + 2 * v.operations_supported.len()) + (4 + 2 * v.events_supported.len())) == Some((v.device_properties_supported, i + (4 + 2 * v.operations_supported.len()) + (4 + 2 * v.events_supported.len()) + 4 + 2 * v.device_properties_supported.len())),
        dec_vec_u16(b, i + (4 + 2 * v.operations_supported.len()) + (4 + 2 * v.events_supported.len()) + (4 + 2 * v.device_properties_supported.len())) == Some((v.capture_formats, i + (4 + 2 * v.operations_supported.len()) + (4 + 2 * v.events_supported.len()) + (4 + 2 * v.device_properties_supported.len()) + 4 + 2 * v.capture_formats.len())),
        dec_vec_u16(b, i + (4 + 2 * v.operations_supported.len()) + (4 + 2 * v.events_supported.len()) + (4 + 2 * v.device_properties_supported.len()) + (4 + 2 * v.capture_formats.len())) == Some((v.image_formats, i + (4 + 2 * v.operations_supported.len()) + (4 + 2 * v.events_supported.len()) + (4 + 2 * v.device_properties_supported.len()) + (4 + 2 * v.capture_formats.len()) + 4 + 2 * v.image_formats.len())),
        device_info_enc_b(v).len() == i + (4 + 2 * v.operations_supported.len()) + (4 + 2 * v.events_supported.len()) + (4 + 2 * v.device_properties_supported.len()) + (4 + 2 * v.capture_formats.len()) + (4 + 2 * v.image_formats.len()) - i,
{
    reveal(device_info_enc_b);
    let e1 = enc_vec_u16(v.operations_supported);
    let e2 = enc_vec_u16(v.events_supported);
    let e3 = enc_vec_u16(v.device_properties_supported);
    let e4 = enc_vec_u16(v.capture_formats);
    let e5 = enc_vec_u16(v.image_formats);
    let t5 = e5;
    let t4 = e4 + t5;
    let t3 = e3 + t4;
    let t2 = e2 + t3;
    let t1 = e1 + t2;
    assert(forall|x: u16| (#[trigger] (enc_u16f())(x)).len() == 2);
    lemma_enc_seq_len(v.operations_supported, enc_u16f(), 2);
    assert(e1.len() == 4 + 2 * v.operations_supported.len());
    lemma_enc_seq_len(v.events_supported, enc_u16f(), 2);
    assert(e2.len() == 4 + 2 * v.events_supported.len());
    lemma_enc_seq_len(v.device_properties_supported, enc_u16f(), 2);
    assert(e3.len() == 4 + 2 * v.device_properties_supported.len());
    lemma_enc_seq_len(v.capture_formats, enc_u16f(), 2);
    assert(e4.len() == 4 + 2 * v.capture_formats.len());
    lemma_enc_seq_len(v.image_formats, enc_u16f(), 2);
    assert(e5.len() == 4 + 2 * v.image_formats.len());
    let p0 = i;
    let p1 = p0 + e1.len();
    let p2 = p1 + e2.len();
    let p3 = p2 + e3.len();
    let p4 = p3 + e4.len();
    let p5 = p4 + e5.len();
    lemma_subrange_concat(b, p0, e1, t2);
    lemma_dec_vec_enc_vec_u16_at(v.operations_supported, b, p0);
    lemma_subrange_concat(b, p1, e2, t3);
    lemma_dec_vec_enc_vec_u16_at(v.events_supported, b, p1);
    lemma_subrange_concat(b, p2, e3, t4);
    lemma_dec_vec_enc_vec_u16_at(v.device_properties_supported, b, p2);
    lemma_subrange_concat(b, p3, e4, t5);
    lemma_dec_vec_enc_vec_u16_at(v.capture_formats, b, p3);
    lemma_dec_vec_enc_vec_u16_at(v.image_formats, b, p4);
}

/// Decoding this stretch of fields in place gives them back.
#[verifier::rlimit(100)]
#[verifier::spinoff_prover]
proof fn lemma_device_info_round_trip_seg_2(v: DeviceInfoView, b: Seq<u8>, i: int)
    requires
        v.wf(),
        0 <= i,
        i + device_info_enc_c(v).len() <= b.len(),
        b.subrange(i, i + device_info_enc_c(v).len()) == device_info_enc_c(v),
    ensures
        dec_str(b, i) == Some((v.manufacturer, i + enc_str(v.manufacturer).len())),
        dec_str(b, i + enc_str(v.manufacturer).len()) == Some((v.model, i + enc_str(v.manufacturer).len() + enc_str(v.model).len())),
        dec_str(b, i + enc_str(v.manufacturer).len() + enc_str(v.model).len()) == Some((v.device_version, i + enc_str(v.manufacturer).len() + enc_str(v.model).len() + enc_str(v.device_version).len())),
        dec_str(b, i + enc_str(v.manufacturer).len() + enc_str(v.model).len() + enc_str(v.device_version).len()) == Some((v.serial_number, i + enc_str(v.manufacturer).len() + enc_str(v.model).len() + enc_str(v.device_version).len() + enc_str(v.serial_number).len())),
        device_info_enc_c(v).len() == i + enc_str(v.manufacturer).len() + enc_str(v.model).len() + enc_str(v.device_version).len() + enc_str(v.serial_number).len() - i,
{
    reveal(device_info_enc_c);
    let e1 = enc_str(v.manufacturer);
    let e2 = enc_str(v.model);
    let e3 = enc_str(v.device_version);
    let e4 = enc_str(v.serial_number);
    let t4 = e4;
    let t3 = e3 + t4;
    let t2 = e2 + t3;
    let t1 = e1 + t2;
    assert(forall|x: u16| (#[trigger] (enc_u16f())(x)).len() == 2);
    let p0 = i;
    let p1 = p0 + e1.len();
    let p2 = p1 + e2.len();
    let p3 = p2 + e3.len();
    let p4 = p3 + e4.len();
    lemma_subrange_concat(b, p0, e1, t2);
    lemma_dec_str_enc_str_at(v.manufacturer, b, p0);
    lemma_subrange_concat(b, p1, e2, t3);
    lemma_dec_str_enc_str_at(v.model, b, p1);
    lemma_subrange_concat(b, p2, e3, t4);
    lemma_dec_str_enc_str_at(v.device_version, b, p2);
    lemma_dec_str_enc_str_at(v.serial_number, b, p3);
}

/// A well-formed record of this kind decodes back from its encoding,
/// consuming all of its bytes.
#[verifier::rlimit(100)]
#[verifier::spinoff_prover]
pub proof fn lemma_device_info_round_trip(v: DeviceInfoView)
    requires
        v.wf(),
    ensures
        device_info_dec(device_info_enc(v)) == Some((v, device_info_enc(v).len() as int)),
{
    let b = device_info_enc(v);
    assert(b.subrange(0, b.len() as int) =~= b);
    lemma_subrange_concat(b, 0, (device_info_enc_a(v) + device_info_enc_b(v)), device_info_enc_c(v));
    lemma_subrange_concat(b, 0, device_info_enc_a(v), device_info_enc_b(v));
    lemma_device_info_round_trip_seg_0(v, b, 0int);
    lemma_device_info_round_trip_seg_1(v, b, 0int + device_info_enc_a(v).len());
    lemma_device_info_round_trip_seg_2(v, b, 0int + device_info_enc_a(v).len() + device_info_enc_b(v).len());
    let q0 = 0int;
    let q1 = q0 + 2;
    let q2 = q1 + 4;
    let q3 = q2 + 2;
    let q4 = q3 + enc_str(v.vendor_extension_desc).len();
    let q5 = q4 + 2;
    let q6 = q5 + (4 + 2 * v.operations_supported.len());
    let q7 = q6 + (4 + 2 * v.events_supported.len());
    let q8 = q7 + (4 + 2 * v.device_properties_supported.len());
    let q9 = q8 + (4 + 2 * v.capture_formats.len());
    let q10 = q9 + (4 + 2 * v.image_formats.len());
    let q11 = q10 + enc_str(v.manufacturer).len();
    let q12 = q11 + enc_str(v.model).len();
    let q13 = q12 + enc_str(v.device_version).len();
    let q14 = q13 + enc_str(v.serial_number).len();
    assert(dec16(b, q0) == Some((v.version, q1)));
    assert(dec32(b, q1) == Some((v.vendor_ex_id, q2)));
    assert(dec16(b, q2) == Some((v.vendor_ex_version, q3)));
    assert(dec_str(b, q3) == Some((v.vendor_extension_desc, q4)));
    assert(dec16(b, q4) == Some((v.functional_mode, q5)));
    assert(dec_vec_u16(b, q5) == Some((v.operations_supported, q6)));
    assert(dec_vec_u16(b, q6) == Some((v.events_supported, q7)));
    assert(dec_vec_u16(b, q7) == Some((v.device_properties_supported, q8)));
    assert(dec_vec_u16(b, q8) == Some((v.capture_formats, q9)));
    assert(dec_vec_u16(b, q9) == Some((v.image_formats, q10)));
    assert(dec_str(b, q10) == Some((v.manufacturer, q11)));
    assert(dec_str(b, q11) == Some((v.model, q12)));
    assert(dec_str(b, q12) == Some((v.device_version, q13)));
    assert(dec_str(b, q13) == Some((v.serial_number, q14)));
}

/// The PTP object descriptor: storage, format, sizes, geometry, association, dates, and names.
#[derive(Debug, Clone)]
pub struct ObjectInfo {
    pub storage_id: u32,
    pub object_format: ObjectFormatCode,
    pub protection_status: u16,
    pub object_compressed_size: u32,
    pub thumb_format: ObjectFormatCode,
    pub thumb_compressed_size: u32,
    pub thumb_pix_width: u32,
    pub thumb_pix_height: u32,
    pub image_pix_width: u32,
    pub image_pix_height: u32,
    pub image_bit_depth: u32,
    pub parent_object: u32,
    pub association_type: AssociationCode,
    pub association_desc: u32,
    pub sequence_number: u32,
    pub filename: String,
    pub capture_date: String,
    pub modification_date: String,
    pub keywords: String,
}

/// The mathematical view of a [`ObjectInfo`].
pub struct ObjectInfoView {
    pub storage_id: u32,
    pub object_format: ObjectFormatCode,
    pub protection_status: u16,
    pub object_compressed_size: u32,
    pub thumb_format: ObjectFormatCode,
    pub thumb_compressed_size: u32,
    pub thumb_pix_width: u32,
    pub thumb_pix_height: u32,
    pub image_pix_width: u32,
    pub image_pix_height: u32,
    pub image_bit_depth: u32,
    pub parent_object: u32,
    pub association_type: AssociationCode,
    pub association_desc: u32,
    pub sequence_number: u32,
    pub filename: Seq<char>,
    pub capture_date: Seq<char>,
    pub modification_date: Seq<char>,
    pub keywords: Seq<char>,
}

impl View for ObjectInfo {
    type V = ObjectInfoView;

    open spec fn view(&self) -> ObjectInfoView {
        ObjectInfoView {
            storage_id: self.storage_id,
            object_format: self.object_format,
            protection_status: self.protection_status,
            object_compressed_size: self.object_compressed_size,
            thumb_format: self.thumb_format,
            thumb_compressed_size: self.thumb_compressed_size,
            thumb_pix_width: self.thumb_pix_width,
            thumb_pix_height: self.thumb_pix_height,
            image_pix_width: self.image_pix_width,
            image_pix_height: self.image_pix_height,
            image_bit_depth: self.image_bit_depth,
            parent_object: self.parent_object,
            association_type: self.association_type,
            association_desc: self.association_desc,
            sequence_number: self.sequence_number,
            filename: self.filename@,
            capture_date: self.capture_date@,
            modification_date: self.modification_date@,
            keywords: self.keywords@,
        }
    }
}

impl ObjectInfoView {
    /// Every string fits the PTP length byte, and the format and
    /// association codes are canonical (they classify back to themselves).
    pub open spec fn wf(self) -> bool {
        &&& ObjectFormatCode::spec_from_u16(self.object_format.spec_to_u16()) == Some(self.object_format)
        &&& ObjectFormatCode::spec_from_u16(self.thumb_format.spec_to_u16()) == Some(self.thumb_format)
        &&& AssociationCode::spec_from_u16(self.association_type.spec_to_u16()) == Some(self.association_type)
        &&& utf16(self.filename).len() <= 127
        &&& utf16(self.capture_date).len() <= 127
        &&& utf16(self.modification_date).len() <= 127
        &&& utf16(self.keywords).len() <= 127
    }
}

/// The specification decoder of an object descriptor, from the start of a
/// buffer.
pub open spec fn object_info_dec(b: Seq<u8>) -> Option<(ObjectInfoView, int)> {
    match dec32(b, 0) {
        None => None,
        Some((storage_id, p1)) =>
        match dec16(b, p1) {
            None => None,
            Some((object_format_raw, p2)) =>
            match ObjectFormatCode::spec_from_u16(object_format_raw) {
                None => None,
                Some(object_format) =>
            match dec16(b, p2) {
                None => None,
                Some((protection_status, p3)) =>
                match dec32(b, p3) {
                    None => None,
                    Some((object_compressed_size, p4)) =>
                    match dec16(b, p4) {
                        None => None,
                        Some((thumb_format_raw, p5)) =>
                        match ObjectFormatCode::spec_from_u16(thumb_format_raw) {
                            None => None,
                            Some(thumb_format) =>
                        match dec32(b, p5) {
                            None => None,
                            Some((thumb_compressed_size, p6)) =>
                            match dec32(b, p6) {
                                None => None,
                                Some((thumb_pix_width, p7)) =>
                                match dec32(b, p7) {
                                    None => None,
                                    Some((thumb_pix_height, p8)) =>
                                    match dec32(b, p8) {
                                        None => None,
                                        Some((image_pix_width, p9)) =>
                                        match dec32(b, p9) {
                                            None => None,
                                            Some((image_pix_height, p10)) =>
                                            match dec32(b, p10) {
                                                None => None,
                                                Some((image_bit_depth, p11)) =>
                                                match dec32(b, p11) {
                                                    None => None,
                                                    Some((parent_object, p12)) =>
                                                    match dec16(b, p12) {
                                                        None => None,
                                                        Some((association_type_raw, p13)) =>
                                                        match AssociationCode::spec_from_u16(association_type_raw) {
                                                            None => None,
                                                            Some(association_type) =>
                                                        match dec32(b, p13) {
                                                            None => None,
                                                            Some((association_desc, p14)) =>
                                                            match dec32(b, p14) {
                                                                None => None,
                                                                Some((sequence_number, p15)) =>
                                                                match dec_str(b, p15) {
                                                                    None => None,
                                                                    Some((filename, p16)) =>
                                                                    match dec_str(b, p16) {
                                                                        None => None,
                                                                        Some((capture_date, p17)) =>
                                                                        match dec_str(b, p17) {
                                                                            None => None,
                                                                            Some((modification_date, p18)) =>
                                                                            match dec_str(b, p18) {
                                                                                None => None,
                                                                                Some((keywords, p19)) =>
    Some((ObjectInfoView { storage_id, object_format, protection_status, object_compressed_size, thumb_format, thumb_compressed_size, thumb_pix_width, thumb_pix_height, image_pix_width, image_pix_height, image_bit_depth, parent_object, association_type, association_desc, sequence_number, filename, capture_date, modification_date, keywords }, p19))
    },
    },
    },
    },
    },
    },
    },
    },
    },
    },
    },
    },
    },
    },
    },
    },
    },
    },
    },
    },
    },
    }
}

/// One stretch of the object descriptor encoding.
#[verifier::opaque]
pub open spec fn object_info_enc_a(v: ObjectInfoView) -> Seq<u8> {
    enc32(v.storage_id) + (enc16(v.object_format.spec_to_u16()) + (enc16(v.protection_status) + (enc32(v.object_compressed_size) + (enc16(v.thumb_format.spec_to_u16())))))
}

/// One stretch of the object descriptor encoding.
#[verifier::opaque]
pub open spec fn object_info_enc_b(v: ObjectInfoView) -> Seq<u8> {
    enc32(v.thumb_compressed_size) + (enc32(v.thumb_pix_width) + (enc32(v.thumb_pix_height) + (enc32(v.image_pix_width) + (enc32(v.image_pix_height)))))
}

/// One stretch of the object descriptor encoding.
#[verifier::opaque]
pub open spec fn object_info_enc_c(v: ObjectInfoView) -> Seq<u8> {
    enc32(v.image_bit_depth) + (enc32(v.parent_object) + (enc16(v.association_type.spec_to_u16()) + (enc32(v.association_desc) + (enc32(v.sequence_number)))))
}

/// One stretch of the object descriptor encoding.
#[verifier::opaque]
pub open spec fn object_info_enc_d(v: ObjectInfoView) -> Seq<u8> {
    enc_str(v.filename) + (enc_str(v.capture_date) + (enc_str(v.modification_date) + (enc_str(v.keywords))))
}

/// The wire encoding of a object descriptor.
pub open spec fn object_info_enc(v: ObjectInfoView) -> Seq<u8>
    recommends
        v.wf(),
{
    object_info_enc_a(v) + object_info_enc_b(v) + object_info_enc_c(v) + object_info_enc_d(v)
}

impl ObjectInfo {
    /// Decode an object descriptor from a byte buffer.  An unrecognized
    /// object format or association code fails with the corresponding typed
    /// error; otherwise it succeeds exactly when the specification decoder
    /// does, failing only on a short buffer or invalid UTF-16.
    #[verifier::rlimit(100)]
    pub fn decode(buf: &[u8]) -> (r: Result<ObjectInfo, Error>)
        ensures
            match r {
                Ok(d) => object_info_dec(buf@) matches Some((v, p)) && v == d@,
                Err(e) => object_info_dec(buf@) is None && (e == Error::Io(
                    IoErrorKind::UnexpectedEof,
                ) || e == Error::BadObjectFormat || e == Error::BadAssociationCode || (e matches
                    Error::Malformed(m) && m@ == "invalid utf16 data"@)),
            },
    {
        let mut cur = Reader::new(buf);
        let storage_id = match cur.read_ptp_u32() {
            Ok(v) => v,
            Err(e) => {
                return Err(e);
            },
        };
        let object_format_raw = match cur.read_ptp_u16() {
            Ok(v) => v,
            Err(e) => {
                return Err(e);
            },
        };
        let object_format = match ObjectFormatCode::from_u16(object_format_raw) {
            Some(c) => c,
            None => {
                return Err(Error::BadObjectFormat);
            },
        };
        let protection_status = match cur.read_ptp_u16() {
            Ok(v) => v,
            Err(e) => {
                return Err(e);
            },
        };
        let object_compressed_size = match cur.read_ptp_u32() {
            Ok(v) => v,
            Err(e) => {
                return Err(e);
            },
        };
        let thumb_format_raw = match cur.read_ptp_u16() {
            Ok(v) => v,
            Err(e) => {
                return Err(e);
            },
        };
        let thumb_format = match ObjectFormatCode::from_u16(thumb_format_raw) {
            Some(c) => c,
            None => {
                return Err(Error::BadObjectFormat);
            },
        };
        let thumb_compressed_size = match cur.read_ptp_u32() {
            Ok(v) => v,
            Err(e) => {
                return Err(e);
            },
        };
        let thumb_pix_width = match cur.read_ptp_u32() {
            Ok(v) => v,
            Err(e) => {
                return Err(e);
            },
        };
        let thumb_pix_height = match cur.read_ptp_u32() {
            Ok(v) => v,
            Err(e) => {
                return Err(e);
            },
        };
        let image_pix_width = match cur.read_ptp_u32() {
            Ok(v) => v,
            Err(e) => {
                return Err(e);
            },
        };
        let image_pix_height = match cur.read_ptp_u32() {
            Ok(v) => v,
            Err(e) => {
                return Err(e);
            },
        };
        let image_bit_depth = match cur.read_ptp_u32() {
            Ok(v) => v,
            Err(e) => {
                return Err(e);
            },
        };
        let parent_object = match cur.read_ptp_u32() {
            Ok(v) => v,
            Err(e) => {
                return Err(e);
            },
        };
        let association_type_raw = match cur.read_ptp_u16() {
            Ok(v) => v,
            Err(e) => {
                return Err(e);
            },
        };
        let association_type = match AssociationCode::from_u16(association_type_raw) {
            Some(c) => c,
            None => {
                return Err(Error::BadAssociationCode);
            },
        };
        let association_desc = match cur.read_ptp_u32() {
            Ok(v) => v,
            Err(e) => {
                return Err(e);
            },
        };
        let sequence_number = match cur.read_ptp_u32() {
            Ok(v) => v,
            Err(e) => {
                return Err(e);
            },
        };
        let filename = match cur.read_ptp_str() {
            Ok(v) => v,
            Err(e) => {
                return Err(e);
            },
        };
        let capture_date = match cur.read_ptp_str() {
            Ok(v) => v,
            Err(e) => {
                return Err(e);
            },
        };
        let modification_date = match cur.read_ptp_str() {
            Ok(v) => v,
            Err(e) => {
                return Err(e);
            },
        };
        let keywords = match cur.read_ptp_str() {
            Ok(v) => v,
            Err(e) => {
                return Err(e);
            },
        };
        Ok(ObjectInfo { storage_id, object_format, protection_status, object_compressed_size, thumb_format, thumb_compressed_size, thumb_pix_width, thumb_pix_height, image_pix_width, image_pix_height, image_bit_depth, parent_object, association_type, association_desc, sequence_number, filename, capture_date, modification_date, keywords })
    }

    /// Encode this object descriptor into the writer, in exact PTP wire
    /// field order.
    #[verifier::rlimit(100)]
    pub fn encode(&self, w: &mut Writer)
        requires
            self@.wf(),
        ensures
            final(w).bytes() == old(w).bytes() + object_info_enc(self@),
    {
        w.write_ptp_u32(self.storage_id);
        w.write_ptp_u16(self.object_format.to_u16());
        w.write_ptp_u16(self.protection_status);
        w.write_ptp_u32(self.object_compressed_size);
        w.write_ptp_u16(self.thumb_format.to_u16());
        w.write_ptp_u32(self.thumb_compressed_size);
        w.write_ptp_u32(self.thumb_pix_width);
        w.write_ptp_u32(self.thumb_pix_height);
        w.write_ptp_u32(self.image_pix_width);
        w.write_ptp_u32(self.image_pix_height);
        w.write_ptp_u32(self.image_bit_depth);
        w.write_ptp_u32(self.parent_object);
        w.write_ptp_u16(self.association_type.to_u16());
        w.write_ptp_u32(self.association_desc);
        w.write_ptp_u32(self.sequence_number);
        w.write_ptp_str(self.filename.as_str());
        w.write_ptp_str(self.capture_date.as_str());
        w.write_ptp_str(self.modification_date.as_str());
        w.write_ptp_str(self.keywords.as_str());
        proof {
            reveal(object_info_enc_a);
            reveal(object_info_enc_b);
            reveal(object_info_enc_c);
            reveal(object_info_enc_d);
            assert(final(w).bytes() =~= old(w).bytes() + object_info_enc(self@));
        }
    }
}

/// Decoding this stretch of fields in place gives them back.
#[verifier::rlimit(100)]
#[verifier::spinoff_prover]
proof fn lemma_object_info_round_trip_seg_0(v: ObjectInfoView, b: Seq<u8>, i: int)
    requires
        v.wf(),
        0 <= i,
        i + object_info_enc_a(v).len() <= b.len(),
        b.subrange(i, i + object_info_enc_a(v).len()) == object_info_enc_a(v),
    ensures
        dec32(b, i) == Some((v.storage_id, i + 4)),
        dec16(b, i + 4) == Some((v.object_format.spec_to_u16(), i + 4 + 2)),
        dec16(b, i + 4 + 2) == Some((v.protection_status, i + 4 + 2 + 2)),
        dec32(b, i + 4 + 2 + 2) == Some((v.object_compressed_size, i + 4 + 2 + 2 + 4)),
        dec16(b, i + 4 + 2 + 2 + 4) == Some((v.thumb_format.spec_to_u16(), i + 4 + 2 + 2 + 4 + 2)),
        object_info_enc_a(v).len() == i + 4 + 2 + 2 + 4 + 2 - i,
{
    reveal(object_info_enc_a);
    let e1 = enc32(v.storage_id);
    let e2 = enc16(v.object_format.spec_to_u16());
    let e3 = enc16(v.protection_status);
    let e4 = enc32(v.object_compressed_size);
    let e5 = enc16(v.thumb_format.spec_to_u16());
    let t5 = e5;
    let t4 = e4 + t5;
    let t3 = e3 + t4;
    let t2 = e2 + t3;
    let t1 = e1 + t2;
    assert(forall|x: u16| (#[trigger] (enc_u16f())(x)).len() == 2);
    let p0 = i;
    let p1 = p0 + e1.len();
    let p2 = p1 + e2.len();
    let p3 = p2 + e3.len();
    let p4 = p3 + e4.len();
    let p5 = p4 + e5.len();
    lemma_subrange_concat(b, p0, e1, t2);
    lemma_dec32_enc32(v.storage_id, b, p0);
    lemma_subrange_concat(b, p1, e2, t3);
    lemma_dec16_enc16(v.object_format.spec_to_u16(), b, p1);
    lemma_subrange_concat(b, p2, e3, t4);
    lemma_dec16_enc16(v.protection_status, b, p2);
    lemma_subrange_concat(b, p3, e4, t5);
    lemma_dec32_enc32(v.object_compressed_size, b, p3);
    lemma_dec16_enc16(v.thumb_format.spec_to_u16(), b, p4);
}

/// Decoding this stretch of fields in place gives them back.
#[verifier::rlimit(100)]
#[verifier::spinoff_prover]
proof fn lemma_object_info_round_trip_seg_1(v: ObjectInfoView, b: Seq<u8>, i: int)
    requires
        v.wf(),
        0 <= i,
        i + object_info_enc_b(v).len() <= b.len(),
        b.subrange(i, i + object_info_enc_b(v).len()) == object_info_enc_b(v),
    ensures
        dec32(b, i) == Some((v.thumb_compressed_size, i + 4)),
        dec32(b, i + 4) == Some((v.thumb_pix_width, i + 4 + 4)),
        dec32(b, i + 4 + 4) == Some((v.thumb_pix_height, i + 4 + 4 + 4)),
        dec32(b, i + 4 + 4 + 4) == Some((v.image_pix_width, i + 4 + 4 + 4 + 4)),
        dec32(b, i + 4 + 4 + 4 + 4) == Some((v.image_pix_height, i + 4 + 4 + 4 + 4 + 4)),
        object_info_enc_b(v).len() == i + 4 + 4 + 4 + 4 + 4 - i,
{
    reveal(object_info_enc_b);
    let e1 = enc32(v.thumb_compressed_size);
    let e2 = enc32(v.thumb_pix_width);
    let e3 = enc32(v.thumb_pix_height);
    let e4 = enc32(v.image_pix_width);
    let e5 = enc32(v.image_pix_height);
    let t5 = e5;
    let t4 = e4 + t5;
    let t3 = e3 + t4;
    let t2 = e2 + t3;
    let t1 = e1 + t2;
    assert(forall|x: u16| (#[trigger] (enc_u16f())(x)).len() == 2);
    let p0 = i;
    let p1 = p0 + e1.len();
    let p2 = p1 + e2.len();
    let p3 = p2 + e3.len();
    let p4 = p3 + e4.len();
    let p5 = p4 + e5.len();
    lemma_subrange_concat(b, p0, e1, t2);
    lemma_dec32_enc32(v.thumb_compressed_size, b, p0);
    lemma_subrange_concat(b, p1, e2, t3);
    lemma_dec32_enc32(v.thumb_pix_width, b, p1);
    lemma_subrange_concat(b, p2, e3, t4);
    lemma_dec32_enc32(v.thumb_pix_height, b, p2);
    lemma_subrange_concat(b, p3, e4, t5);
    lemma_dec32_enc32(v.image_pix_width, b, p3);
    lemma_dec32_enc32(v.image_pix_height, b, p4);
}

/// Decoding this stretch of fields in place gives them back.
#[verifier::rlimit(100)]
#[verifier::spinoff_prover]
proof fn lemma_object_info_round_trip_seg_2(v: ObjectInfoView, b: Seq<u8>, i: int)
    requires
        v.wf(),
        0 <= i,
        i + object_info_enc_c(v).len() <= b.len(),
        b.subrange(i, i + object_info_enc_c(v).len()) == object_info_enc_c(v),
    ensures
        dec32(b, i) == Some((v.image_bit_depth, i + 4)),
        dec32(b, i + 4) == Some((v.parent_object, i + 4 + 4)),
        dec16(b, i + 4 + 4) == Some((v.association_type.spec_to_u16(), i + 4 + 4 + 2)),
        dec32(b, i + 4 + 4 + 2) == Some((v.association_desc, i + 4 + 4 + 2 + 4)),
        dec32(b, i + 4 + 4 + 2 + 4) == Some((v.sequence_number, i + 4 + 4 + 2 + 4 + 4)),
        object_info_enc_c(v).len() == i + 4 + 4 + 2 + 4 + 4 - i,
{
    reveal(object_info_enc_c);
    let e1 = enc32(v.image_bit_depth);
    let e2 = enc32(v.parent_object);
    let e3 = enc16(v.association_type.spec_to_u16());
    let e4 = enc32(v.association_desc);
    let e5 = enc32(v.sequence_number);
    let t5 = e5;
    let t4 = e4 + t5;
    let t3 = e3 + t4;
    let t2 = e2 + t3;
    let t1 = e1 + t2;
    assert(forall|x: u16| (#[trigger] (enc_u16f())(x)).len() == 2);
    let p0 = i;
    let p1 = p0 + e1.len();
    let p2 = p1 + e2.len();
    let p3 = p2 + e3.len();
    let p4 = p3 + e4.len();
    let p5 = p4 + e5.len();
    lemma_subrange_concat(b, p0, e1, t2);
    lemma_dec32_enc32(v.image_bit_depth, b, p0);
    lemma_subrange_concat(b, p1, e2, t3);
    lemma_dec32_enc32(v.parent_object, b, p1);
    lemma_subrange_concat(b, p2, e3, t4);
    lemma_dec16_enc16(v.association_type.spec_to_u16(), b, p2);
    lemma_subrange_concat(b, p3, e4, t5);
    lemma_dec32_enc32(v.association_desc, b, p3);
    lemma_dec32_enc32(v.sequence_number, b, p4);
}

/// Decoding this stretch of fields in place gives them back.
#[verifier::rlimit(100)]
#[verifier::spinoff_prover]
proof fn lemma_object_info_round_trip_seg_3(v: ObjectInfoView, b: Seq<u8>, i: int)
    requires
        v.wf(),
        0 <= i,
        i + object_info_enc_d(v).len() <= b.len(),
        b.subrange(i, i + object_info_enc_d(v).len()) == object_info_enc_d(v),
    ensures
        dec_str(b, i) == Some((v.filename, i + enc_str(v.filename).len())),
        dec_str(b, i + enc_str(v.filename).len()) == Some((v.capture_date, i + enc_str(v.filename).len() + enc_str(v.capture_date).len())),
        dec_str(b, i + enc_str(v.filename).len() + enc_str(v.capture_date).len()) == Some((v.modification_date, i + enc_str(v.filename).len() + enc_str(v.capture_date).len() + enc_str(v.modification_date).len())),
        dec_str(b, i + enc_str(v.filename).len() + enc_str(v.capture_date).len() + enc_str(v.modification_date).len()) == Some((v.keywords, i + enc_str(v.filename).len() + enc_str(v.capture_date).len() + enc_str(v.modification_date).len() + enc_str(v.keywords).len())),
        object_info_enc_d(v).len() == i + enc_str(v.filename).len() + enc_str(v.capture_date).len() + enc_str(v.modification_date).len() + enc_str(v.keywords).len() - i,
{
    reveal(object_info_enc_d);
    let e1 = enc_str(v.filename);
    let e2 = enc_str(v.capture_date);
    let e3 = enc_str(v.modification_date);
    let e4 = enc_str(v.keywords);
    let t4 = e4;
    let t3 = e3 + t4;
    let t2 = e2 + t3;
    let t1 = e1 + t2;
    assert(forall|x: u16| (#[trigger] (enc_u16f())(x)).len() == 2);
    let p0 = i;
    let p1 = p0 + e1.len();
    let p2 = p1 + e2.len();
    let p3 = p2 + e3.len();
    let p4 = p3 + e4.len();
    lemma_subrange_concat(b, p0, e1, t2);
    lemma_dec_str_enc_str_at(v.filename, b, p0);
    lemma_subrange_concat(b, p1, e2, t3);
    lemma_dec_str_enc_str_at(v.capture_date, b, p1);
    lemma_subrange_concat(b, p2, e3, t4);
    lemma_dec_str_enc_str_at(v.modification_date, b, p2);
    lemma_dec_str_enc_str_at(v.keywords, b, p3);
}

/// A well-formed record of this kind decodes back from its encoding,
/// consuming all of its bytes.
#[verifier::rlimit(100)]
#[verifier::spinoff_prover]
pub proof fn lemma_object_info_round_trip(v: ObjectInfoView)
    requires
        v.wf(),
    ensures
        object_info_dec(object_info_enc(v)) == Some((v, object_info_enc(v).len() as int)),
{
    let b = object_info_enc(v);
    assert(b.subrange(0, b.len() as int) =~= b);
    lemma_subrange_concat(b, 0, ((object_info_enc_a(v) + object_info_enc_b(v)) + object_info_enc_c(v)), object_info_enc_d(v));
    lemma_subrange_concat(b, 0, (object_info_enc_a(v) + object_info_enc_b(v)), object_info_enc_c(v));
    lemma_subrange_concat(b, 0, object_info_enc_a(v), object_info_enc_b(v));
    lemma_object_info_round_trip_seg_0(v, b, 0int);
    lemma_object_info_round_trip_seg_1(v, b, 0int + object_info_enc_a(v).len());
    lemma_object_info_round_trip_seg_2(v, b, 0int + object_info_enc_a(v).len() + object_info_enc_b(v).len());
    lemma_object_info_round_trip_seg_3(v, b, 0int + object_info_enc_a(v).len() + object_info_enc_b(v).len() + object_info_enc_c(v).len());
    let q0 = 0int;
    let q1 = q0 + 4;
    let q2 = q1 + 2;
    let q3 = q2 + 2;
    let q4 = q3 + 4;
    let q5 = q4 + 2;
    let q6 = q5 + 4;
    let q7 = q6 + 4;
    let q8 = q7 + 4;
    let q9 = q8 + 4;
    let q10 = q9 + 4;
    let q11 = q10 + 4;
    let q12 = q11 + 4;
    let q13 = q12 + 2;
    let q14 = q13 + 4;
    let q15 = q14 + 4;
    let q16 = q15 + enc_str(v.filename).len();
    let q17 = q16 + enc_str(v.capture_date).len();
    let q18 = q17 + enc_str(v.modification_date).len();
    let q19 = q18 + enc_str(v.keywords).len();
    assert(dec32(b, q0) == Some((v.storage_id, q1)));
    assert(dec16(b, q1) == Some((v.object_format.spec_to_u16(), q2)));
    assert(dec16(b, q2) == Some((v.protection_status, q3)));
    assert(dec32(b, q3) == Some((v.object_compressed_size, q4)));
    assert(dec16(b, q4) == Some((v.thumb_format.spec_to_u16(), q5)));
    assert(dec32(b, q5) == Some((v.thumb_compressed_size, q6)));
    assert(dec32(b, q6) == Some((v.thumb_pix_width, q7)));
    assert(dec32(b, q7) == Some((v.thumb_pix_height, q8)));
    assert(dec32(b, q8) == Some((v.image_pix_width, q9)));
    assert(dec32(b, q9) == Some((v.image_pix_height, q10)));
    assert(dec32(b, q10) == Some((v.image_bit_depth, q11)));
    assert(dec32(b, q11) == Some((v.parent_object, q12)));
    assert(dec16(b, q12) == Some((v.association_type.spec_to_u16(), q13)));
    assert(dec32(b, q13) == Some((v.association_desc, q14)));
    assert(dec32(b, q14) == Some((v.sequence_number, q15)));
    assert(dec_str(b, q15) == Some((v.filename, q16)));
    assert(dec_str(b, q16) == Some((v.capture_date, q17)));
    assert(dec_str(b, q17) == Some((v.modification_date, q18)));
    assert(dec_str(b, q18) == Some((v.keywords, q19)));
}

/// The PTP storage descriptor: type, filesystem, access, capacities, and labels.
#[derive(Debug, Clone)]
pub struct StorageInfo {
    pub storage_type: StorageType,
    pub filesystem_type: FilesystemType,
    pub access_capability: AccessType,
    pub max_capacity: u64,
    pub free_space_in_bytes: u64,
    pub free_space_in_images: u32,
    pub storage_description: String,
    pub volume_label: String,
}

/// The mathematical view of a [`StorageInfo`].
pub struct StorageInfoView {
    pub storage_type: StorageType,
    pub filesystem_type: FilesystemType,
    pub access_capability: AccessType,
    pub max_capacity: u64,
    pub free_space_in_bytes: u64,
    pub free_space_in_images: u32,
    pub storage_description: Seq<char>,
    pub volume_label: Seq<char>,
}

impl View for StorageInfo {
    type V = StorageInfoView;

    open spec fn view(&self) -> StorageInfoView {
        StorageInfoView {
            storage_type: self.storage_type,
            filesystem_type: self.filesystem_type,
            access_capability: self.access_capability,
            max_capacity: self.max_capacity,
            free_space_in_bytes: self.free_space_in_bytes,
            free_space_in_images: self.free_space_in_images,
            storage_description: self.storage_description@,
            volume_label: self.volume_label@,
        }
    }
}

impl StorageInfoView {
    /// Every string fits the PTP length byte.
    pub open spec fn wf(self) -> bool {
        &&& utf16(self.storage_description).len() <= 127
        &&& utf16(self.volume_label).len() <= 127
    }
}

/// The specification decoder of a storage descriptor, at a position in a
/// buffer.
pub open spec fn storage_info_dec(b: Seq<u8>, start: int) -> Option<(StorageInfoView, int)> {
    match dec16(b, start) {
        None => None,
        Some((storage_type_raw, p1)) =>
        match StorageType::spec_from_u16(storage_type_raw) {
            None => None,
            Some(storage_type) =>
        match dec16(b, p1) {
            None => None,
            Some((filesystem_type_raw, p2)) =>
            match FilesystemType::spec_from_u16(filesystem_type_raw) {
                None => None,
                Some(filesystem_type) =>
            match dec16(b, p2) {
                None => None,
                Some((access_capability_raw, p3)) =>
                match AccessType::spec_from_u16(access_capability_raw) {
                    None => None,
                    Some(access_capability) =>
                match dec64(b, p3) {
                    None => None,
                    Some((max_capacity, p4)) =>
                    match dec64(b, p4) {
                        None => None,
                        Some((free_space_in_bytes, p5)) =>
                        match dec32(b, p5) {
                            None => None,
                            Some((free_space_in_images, p6)) =>
                            match dec_str(b, p6) {
                                None => None,
                                Some((storage_description, p7)) =>
                                match dec_str(b, p7) {
                                    None => None,
                                    Some((volume_label, p8)) =>
    Some((StorageInfoView { storage_type, filesystem_type, access_capability, max_capacity, free_space_in_bytes, free_space_in_images, storage_description, volume_label }, p8))
    },
    },
    },
    },
    },
    },
    },
    },
    },
    },
    }
}

impl StorageInfo {
    /// Decode a storage descriptor from the reader, in exact PTP wire field
    /// order.  The storage type, filesystem type, and access capability
    /// classifications are total, so only a short buffer can fail.
    #[verifier::rlimit(100)]
    pub fn decode(cur: &mut Reader) -> (r: Result<StorageInfo, Error>)
        requires
            old(cur).wf(),
        ensures
            final(cur).wf(),
            final(cur).bytes() == old(cur).bytes(),
            match r {
                Ok(d) => storage_info_dec(old(cur).bytes(), old(cur).position()) == Some(
                    (d@, final(cur).position()),
                ),
                Err(e) => storage_info_dec(old(cur).bytes(), old(cur).position()) is None && (e
                    == Error::Io(IoErrorKind::UnexpectedEof) || (e matches Error::Malformed(m)
                    && m@ == "invalid utf16 data"@)),
            },
    {
        let storage_type_raw = match cur.read_ptp_u16() {
            Ok(v) => v,
            Err(e) => {
                return Err(e);
            },
        };
        let storage_type = match StorageType::from_u16(storage_type_raw) {
            Some(c) => c,
            None => unreached(),
        };
        let filesystem_type_raw = match cur.read_ptp_u16() {
            Ok(v) => v,
            Err(e) => {
                return Err(e);
            },
        };
        let filesystem_type = match FilesystemType::from_u16(filesystem_type_raw) {
            Some(c) => c,
            None => unreached(),
        };
        let access_capability_raw = match cur.read_ptp_u16() {
            Ok(v) => v,
            Err(e) => {
                return Err(e);
            },
        };
        let access_capability = match AccessType::from_u16(access_capability_raw) {
            Some(c) => c,
            None => unreached(),
        };
        let max_capacity = match cur.read_ptp_u64() {
            Ok(v) => v,
            Err(e) => {
                return Err(e);
            },
        };
        let free_space_in_bytes = match cur.read_ptp_u64() {
            Ok(v) => v,
            Err(e) => {
                return Err(e);
            },
        };
        let free_space_in_images = match cur.read_ptp_u32() {
            Ok(v) => v,
            Err(e) => {
                return Err(e);
            },
        };
        let storage_description = match cur.read_ptp_str() {
            Ok(v) => v,
            Err(e) => {
                return Err(e);
            },
        };
        let volume_label = match cur.read_ptp_str() {
            Ok(v) => v,
            Err(e) => {
                return Err(e);
            },
        };
        Ok(StorageInfo { storage_type, filesystem_type, access_capability, max_capacity, free_space_in_bytes, free_space_in_images, storage_description, volume_label })
    }
}

/// The form trailer of a device property descriptor.
pub enum FormData {
    /// No form: the property takes arbitrary values of its type.
    NoForm,
    /// A range of permitted values with a step.
    Range { min_value: Data, max_value: Data, step: Data },
    /// An explicit enumeration of permitted values.
    Enumeration { array: Vec<Data> },
}

/// The mathematical view of a [`FormData`].
pub enum FormDataView {
    NoForm,
    Range { min_value: DataView, max_value: DataView, step: DataView },
    Enumeration { array: Seq<DataView> },
}

impl View for FormData {
    type V = FormDataView;

    open spec fn view(&self) -> FormDataView {
        match self {
            FormData::NoForm => FormDataView::NoForm,
            FormData::Range { min_value, max_value, step } => FormDataView::Range {
                min_value: min_value@,
                max_value: max_value@,
                step: step@,
            },
            FormData::Enumeration { array } => FormDataView::Enumeration {
                array: array.deep_view(),
            },
        }
    }
}

/// The device property descriptor: codes, flags, default and current
/// values, and the form trailer.
pub struct PropInfo {
    pub property_code: u16,
    pub data_type: u16,
    pub get_set: u8,
    pub is_enable: u8,
    pub factory_default: Data,
    pub current: Data,
    pub form: FormData,
}

/// The mathematical view of a [`PropInfo`].
pub struct PropInfoView {
    pub property_code: u16,
    pub data_type: u16,
    pub get_set: u8,
    pub is_enable: u8,
    pub factory_default: DataView,
    pub current: DataView,
    pub form: FormDataView,
}

impl View for PropInfo {
    type V = PropInfoView;

    open spec fn view(&self) -> PropInfoView {
        PropInfoView {
            property_code: self.property_code,
            data_type: self.data_type,
            get_set: self.get_set,
            is_enable: self.is_enable,
            factory_default: self.factory_default@,
            current: self.current@,
            form: self.form@,
        }
    }
}

/// The specification decoder of the form trailer: a one-byte indicator,
/// then for 1 a range of three values of the data type, for 2 a
/// `u16`-length-prefixed enumeration, and for anything else no form.
pub open spec fn form_data_dec(dt: u16, b: Seq<u8>, start: int) -> Option<(FormDataView, int)> {
    match dec8(b, start) {
        None => None,
        Some((flag, q)) => if flag == 1 {
            match data_dec(dt, b, q) {
                None => None,
                Some((min_value, q1)) => match data_dec(dt, b, q1) {
                    None => None,
                    Some((max_value, q2)) => match data_dec(dt, b, q2) {
                        None => None,
                        Some((step, q3)) => Some(
                            (FormDataView::Range { min_value, max_value, step }, q3),
                        ),
                    },
                },
            }
        } else if flag == 2 {
            match dec16(b, q) {
                None => None,
                Some((cnt, q1)) => match dec_n(b, q1, cnt as nat, data_decf(dt)) {
                    None => None,
                    Some((array, q2)) => Some((FormDataView::Enumeration { array }, q2)),
                },
            }
        } else {
            Some((FormDataView::NoForm, q))
        },
    }
}

/// The specification decoder of a device property descriptor: codes and
/// flags, then the factory default and current values decoded with the
/// earlier data-type tag, then the form trailer.
pub open spec fn prop_info_dec(b: Seq<u8>, start: int) -> Option<(PropInfoView, int)> {
    match dec16(b, start) {
        None => None,
        Some((property_code, p1)) => match dec16(b, p1) {
            None => None,
            Some((data_type, p2)) => match dec8(b, p2) {
                None => None,
                Some((get_set, p3)) => match dec8(b, p3) {
                    None => None,
                    Some((is_enable, p4)) => match data_dec(data_type, b, p4) {
                        None => None,
                        Some((factory_default, p5)) => match data_dec(data_type, b, p5) {
                            None => None,
                            Some((current, p6)) => match form_data_dec(data_type, b, p6) {
                                None => None,
                                Some((form, p7)) => Some(
                                    (
                                        PropInfoView {
                                            property_code,
                                            data_type,
                                            get_set,
                                            is_enable,
                                            factory_default,
                                            current,
                                            form,
                                        },
                                        p7,
                                    ),
                                ),
                            },
                        },
                    },
                },
            },
        },
    }
}

impl PropInfo {
    /// Decode a device property descriptor from the reader: property code,
    /// data type, get/set and is-enable flags, the factory default and
    /// current values of that data type, and the form trailer.
    #[verifier::loop_isolation(false)]
    #[verifier::rlimit(100)]
    pub fn decode(cur: &mut Reader) -> (r: Result<PropInfo, Error>)
        requires
            old(cur).wf(),
        ensures
            final(cur).wf(),
            final(cur).bytes() == old(cur).bytes(),
            match r {
                Ok(d) => prop_info_dec(old(cur).bytes(), old(cur).position()) == Some(
                    (d@, final(cur).position()),
                ),
                Err(_) => prop_info_dec(old(cur).bytes(), old(cur).position()) is None,
            },
    {
        let property_code = match cur.read_ptp_u16() {
            Ok(v) => v,
            Err(e) => {
                return Err(e);
            },
        };
        let data_type = match cur.read_ptp_u16() {
            Ok(v) => v,
            Err(e) => {
                return Err(e);
            },
        };
        let get_set = match cur.read_ptp_u8() {
            Ok(v) => v,
            Err(e) => {
                return Err(e);
            },
        };
        let is_enable = match cur.read_ptp_u8() {
            Ok(v) => v,
            Err(e) => {
                return Err(e);
            },
        };
        let factory_default = match Data::read_type(data_type, cur) {
            Ok(v) => v,
            Err(e) => {
                return Err(e);
            },
        };
        let current = match Data::read_type(data_type, cur) {
            Ok(v) => v,
            Err(e) => {
                return Err(e);
            },
        };
        let flag = match cur.read_ptp_u8() {
            Ok(v) => v,
            Err(e) => {
                return Err(e);
            },
        };
        let form = if flag == 1 {
            let min_value = match Data::read_type(data_type, cur) {
                Ok(v) => v,
                Err(e) => {
                    return Err(e);
                },
            };
            let max_value = match Data::read_type(data_type, cur) {
                Ok(v) => v,
                Err(e) => {
                    return Err(e);
                },
            };
            let step = match Data::read_type(data_type, cur) {
                Ok(v) => v,
                Err(e) => {
                    return Err(e);
                },
            };
            FormData::Range { min_value, max_value, step }
        } else if flag == 2 {
            let cnt = match cur.read_ptp_u16() {
                Ok(v) => v,
                Err(e) => {
                    return Err(e);
                },
            };
            let ghost b = cur.bytes();
            let ghost elems_start = cur.position();
            let mut array: Vec<Data> = Vec::new();
            proof {
                if let Some((s0, _end0)) = dec_n(b, elems_start, cnt as nat, data_decf(data_type)) {
                    assert(Seq::<DataView>::empty() + s0 =~= s0);
                }
            }
            let mut k: u16 = 0;
            while k < cnt
                invariant
                    cur.wf(),
                    cur.bytes() == b,
                    0 <= k <= cnt,
                    array.deep_view().len() == k,
                    cur.position() >= 0,
                    (match dec_n(b, cur.position(), (cnt - k) as nat, data_decf(data_type)) {
                        Some((s, end)) => dec_n(b, elems_start, cnt as nat, data_decf(data_type))
                            == Some((array.deep_view() + s, end)),
                        None => dec_n(b, elems_start, cnt as nat, data_decf(data_type)) is None,
                    }),
                decreases cnt - k,
            {
                let ghost pos0 = cur.position();
                let v = match Data::read_type(data_type, cur) {
                    Ok(v) => v,
                    Err(e) => {
                        proof {
                            assert((data_decf(data_type))(b, pos0) is None);
                            assert(dec_n(b, pos0, (cnt - k) as nat, data_decf(data_type)) is None);
                        }
                        return Err(e);
                    },
                };
                let ghost prev = array.deep_view();
                array.push(v);
                proof {
                    assert(array.deep_view() =~= prev.push(v@));
                    assert((data_decf(data_type))(b, pos0) == Some((v@, cur.position())));
                    if let Some((s, end)) = dec_n(
                        b,
                        cur.position(),
                        (cnt - k - 1) as nat,
                        data_decf(data_type),
                    ) {
                        assert(dec_n(b, pos0, (cnt - k) as nat, data_decf(data_type)) == Some(
                            (seq![v@] + s, end),
                        ));
                        assert(prev + (seq![v@] + s) =~= array.deep_view() + s);
                    }
                }
                k = k + 1;
            }
            proof {
                assert(dec_n(b, cur.position(), 0nat, data_decf(data_type)) == Some(
                    (Seq::<DataView>::empty(), cur.position()),
                ));
                assert(array.deep_view() + Seq::<DataView>::empty() =~= array.deep_view());
            }
            FormData::Enumeration { array }
        } else {
            FormData::NoForm
        };
        Ok(PropInfo { property_code, data_type, get_set, is_enable, factory_default, current, form })
    }
}

} // verus!
