//! Descriptor record scenarios: decoding well-formed buffers consumes every
//! byte, and the typed errors come on the inputs that earn them.

use ptp::records::FormData;
use ptp::records::PropInfo;
use ptp::AccessType;
use ptp::AssociationCode;
use ptp::Data;
use ptp::DeviceInfo;
use ptp::Error;
use ptp::FilesystemType;
use ptp::ObjectFormatCode;
use ptp::ObjectInfo;
use ptp::ObjectTree;
use ptp::Reader;
use ptp::StandardAccessType;
use ptp::StandardFilesystemType;
use ptp::StandardStorageType;
use ptp::StorageInfo;
use ptp::StorageType;
use ptp::Writer;

fn device_info_bytes() -> Vec<u8> {
    let mut w = Writer::new();
    w.write_ptp_u16(100); // version
    w.write_ptp_u32(6); // vendor extension id
    w.write_ptp_u16(110); // vendor extension version
    w.write_ptp_str("ext");
    w.write_ptp_u16(0); // functional mode
    w.write_ptp_u16_vec(&[0x1001, 0x1002]);
    w.write_ptp_u16_vec(&[0x4002]);
    w.write_ptp_u16_vec(&[]);
    w.write_ptp_u16_vec(&[0x3801]);
    w.write_ptp_u16_vec(&[0x3800, 0x3801]);
    w.write_ptp_str("maker");
    w.write_ptp_str("model");
    w.write_ptp_str("1.0");
    w.write_ptp_str("serial");
    w.into_vec()
}

#[test]
fn device_info_decode_consumes_all_bytes() {
    let bytes = device_info_bytes();
    let d = DeviceInfo::decode(&bytes).unwrap();
    assert_eq!(d.version, 100);
    assert_eq!(d.vendor_ex_id, 6);
    assert_eq!(d.vendor_ex_version, 110);
    assert_eq!(d.vendor_extension_desc, "ext");
    assert_eq!(d.operations_supported, vec![0x1001, 0x1002]);
    assert_eq!(d.events_supported, vec![0x4002]);
    assert!(d.device_properties_supported.is_empty());
    assert_eq!(d.capture_formats, vec![0x3801]);
    assert_eq!(d.image_formats, vec![0x3800, 0x3801]);
    assert_eq!(d.manufacturer, "maker");
    assert_eq!(d.model, "model");
    assert_eq!(d.device_version, "1.0");
    assert_eq!(d.serial_number, "serial");
}

#[test]
fn device_info_truncated_fails() {
    let bytes = device_info_bytes();
    assert!(DeviceInfo::decode(&bytes[..bytes.len() - 1]).is_err());
}

fn sample_object_info() -> ObjectInfo {
    ObjectInfo {
        storage_id: 0x10001,
        object_format: ObjectFormatCode::from_u16(0x3801).unwrap(),
        protection_status: 0,
        object_compressed_size: 12345,
        thumb_format: ObjectFormatCode::from_u16(0x3808).unwrap(),
        thumb_compressed_size: 320,
        thumb_pix_width: 160,
        thumb_pix_height: 120,
        image_pix_width: 4000,
        image_pix_height: 3000,
        image_bit_depth: 24,
        parent_object: 0,
        association_type: AssociationCode::from_u16(0x0001).unwrap(),
        association_desc: 0,
        sequence_number: 1,
        filename: "IMG_0001.JPG".to_owned(),
        capture_date: "20240101T000000".to_owned(),
        modification_date: "20240101T000001".to_owned(),
        keywords: "".to_owned(),
    }
}

#[test]
fn object_info_encode_decode_round_trip() {
    let info = sample_object_info();
    let mut w = Writer::new();
    info.encode(&mut w);
    let bytes = w.into_vec();
    let back = ObjectInfo::decode(&bytes).unwrap();
    assert_eq!(back.storage_id, info.storage_id);
    assert_eq!(back.object_format, info.object_format);
    assert_eq!(back.thumb_format, info.thumb_format);
    assert_eq!(back.object_compressed_size, info.object_compressed_size);
    assert_eq!(back.association_type, info.association_type);
    assert_eq!(back.filename, info.filename);
    assert_eq!(back.capture_date, info.capture_date);
    assert_eq!(back.modification_date, info.modification_date);
    assert_eq!(back.keywords, info.keywords);
    // the decoder consumed every byte: a reader positioned past the
    // encoding sees its end
    let mut r = Reader::new(&bytes);
    let mut consumed = 0usize;
    while consumed < bytes.len() {
        r.read_ptp_u8().unwrap();
        consumed += 1;
    }
    assert!(r.expect_end().is_ok());
}

#[test]
fn object_info_bad_format_code() {
    let info = sample_object_info();
    let mut w = Writer::new();
    info.encode(&mut w);
    let mut bytes = w.into_vec();
    // overwrite the object format field (bytes 4..6) with an
    // unclassifiable value
    bytes[4] = 0x99;
    bytes[5] = 0x99;
    assert!(matches!(
        ObjectInfo::decode(&bytes),
        Err(Error::BadObjectFormat)
    ));
}

#[test]
fn object_info_bad_association_code() {
    let info = sample_object_info();
    let mut w = Writer::new();
    info.encode(&mut w);
    let mut bytes = w.into_vec();
    // the association type sits after ten four-byte and three two-byte
    // fields, at offset 42
    bytes[42] = 0x01;
    bytes[43] = 0x80;
    assert!(matches!(
        ObjectInfo::decode(&bytes),
        Err(Error::BadAssociationCode)
    ));
}

fn storage_info_bytes() -> Vec<u8> {
    let mut w = Writer::new();
    w.write_ptp_u16(0x0003); // FixedRam
    w.write_ptp_u16(0x0002); // GenericHierarchical
    w.write_ptp_u16(0x0000); // ReadWrite
    w.write_ptp_u64(1 << 30);
    w.write_ptp_u64(1 << 29);
    w.write_ptp_u32(1000);
    w.write_ptp_str("internal");
    w.write_ptp_str("CARD");
    w.into_vec()
}

#[test]
fn storage_info_decode() {
    let bytes = storage_info_bytes();
    let mut r = Reader::new(&bytes);
    let s = StorageInfo::decode(&mut r).unwrap();
    assert!(r.expect_end().is_ok());
    assert_eq!(
        s.storage_type,
        StorageType::Standard(StandardStorageType::FixedRam)
    );
    assert_eq!(
        s.filesystem_type,
        FilesystemType::Standard(StandardFilesystemType::GenericHierarchical)
    );
    assert_eq!(
        s.access_capability,
        AccessType::Standard(StandardAccessType::ReadWrite)
    );
    assert_eq!(s.max_capacity, 1 << 30);
    assert_eq!(s.free_space_in_bytes, 1 << 29);
    assert_eq!(s.free_space_in_images, 1000);
    assert_eq!(s.storage_description, "internal");
    assert_eq!(s.volume_label, "CARD");
}

#[test]
fn prop_info_with_enumeration_form() {
    let mut w = Writer::new();
    w.write_ptp_u16(0x5001); // property code
    w.write_ptp_u16(0x0004); // data type: UINT16
    w.write_ptp_u8(1); // get/set
    w.write_ptp_u8(1); // is enable
    w.write_ptp_u16(50); // factory default
    w.write_ptp_u16(75); // current
    w.write_ptp_u8(0x02); // enumeration form
    w.write_ptp_u16(3); // three values
    w.write_ptp_u16(25);
    w.write_ptp_u16(50);
    w.write_ptp_u16(100);
    let bytes = w.into_vec();
    let mut r = Reader::new(&bytes);
    let p = PropInfo::decode(&mut r).unwrap();
    assert!(r.expect_end().is_ok());
    assert_eq!(p.property_code, 0x5001);
    assert_eq!(p.data_type, 0x0004);
    assert!(matches!(p.factory_default, Data::UINT16(50)));
    assert!(matches!(p.current, Data::UINT16(75)));
    match p.form {
        FormData::Enumeration { array } => {
            assert_eq!(array.len(), 3);
            assert!(matches!(array[0], Data::UINT16(25)));
            assert!(matches!(array[2], Data::UINT16(100)));
        },
        _ => panic!("expected an enumeration form"),
    }
}

#[test]
fn prop_info_with_range_form() {
    let mut w = Writer::new();
    w.write_ptp_u16(0x5002);
    w.write_ptp_u16(0x0002); // UINT8
    w.write_ptp_u8(0);
    w.write_ptp_u8(1);
    w.write_ptp_u8(0); // factory default
    w.write_ptp_u8(5); // current
    w.write_ptp_u8(0x01); // range form
    w.write_ptp_u8(0);
    w.write_ptp_u8(10);
    w.write_ptp_u8(2);
    let bytes = w.into_vec();
    let mut r = Reader::new(&bytes);
    let p = PropInfo::decode(&mut r).unwrap();
    assert!(r.expect_end().is_ok());
    match p.form {
        FormData::Range { min_value, max_value, step } => {
            assert!(matches!(min_value, Data::UINT8(0)));
            assert!(matches!(max_value, Data::UINT8(10)));
            assert!(matches!(step, Data::UINT8(2)));
        },
        _ => panic!("expected a range form"),
    }
}

#[test]
fn prop_info_unknown_form_flag_is_no_form() {
    let mut w = Writer::new();
    w.write_ptp_u16(0x5003);
    w.write_ptp_u16(0x0002);
    w.write_ptp_u8(0);
    w.write_ptp_u8(0);
    w.write_ptp_u8(1);
    w.write_ptp_u8(1);
    w.write_ptp_u8(0x00); // no form
    let bytes = w.into_vec();
    let mut r = Reader::new(&bytes);
    let p = PropInfo::decode(&mut r).unwrap();
    assert!(matches!(p.form, FormData::NoForm));
}

#[test]
fn tree_walk_visits_every_node() {
    let leaf = |name: &str| ObjectTree {
        handle: ptp::ObjectHandle::from(1u32),
        info: ObjectInfo { filename: name.to_owned(), ..sample_object_info() },
        children: None,
    };
    let root = ObjectTree {
        handle: ptp::ObjectHandle::from(0u32),
        info: ObjectInfo { filename: "DCIM".to_owned(), ..sample_object_info() },
        children: Some(vec![leaf("a.jpg"), leaf("b.jpg")]),
    };
    let flat = root.walk();
    assert_eq!(flat.len(), 3);
    assert_eq!(flat[0].0, "DCIM");
    assert_eq!(flat[1].0, "DCIM/a.jpg");
    assert_eq!(flat[2].0, "DCIM/b.jpg");
}
