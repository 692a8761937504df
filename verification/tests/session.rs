//! Session façade scenarios: the per-operation request builders and
//! response-payload parsers.

use ptp::session;
use ptp::Error;
use ptp::ObjectFormatCode;
use ptp::ObjectHandle;
use ptp::StorageId;
use ptp::Writer;

#[test]
fn request_builders_match_the_operation_table() {
    let r = session::get_device_info_request();
    assert_eq!(r.code, 0x1001);
    assert_eq!(r.params, vec![0, 0, 0]);

    let r = session::open_session_request();
    assert_eq!(r.code, 0x1002);
    assert_eq!(r.params, vec![3, 0, 0]);

    let r = session::close_session_request();
    assert_eq!(r.code, 0x1003);
    assert!(r.params.is_empty());

    let r = session::get_storage_ids_request();
    assert_eq!(r.code, 0x1004);
    assert!(r.params.is_empty());

    let r = session::get_storage_info_request(StorageId::from(9u32));
    assert_eq!(r.code, 0x1005);
    assert_eq!(r.params, vec![9]);

    let r = session::get_num_objects_request(None, None, None);
    assert_eq!(r.code, 0x1006);
    assert_eq!(r.params, vec![0xFFFFFFFF, 0, 0]);

    let r = session::get_object_handles_request(
        StorageId::from(2u32),
        Some(ObjectFormatCode::from_u16(0x3801).unwrap()),
        Some(ObjectHandle::root()),
    );
    assert_eq!(r.code, 0x1007);
    assert_eq!(r.params, vec![2, 0x3801, 0xFFFFFFFF]);

    let r = session::get_object_info_request(ObjectHandle::from(11u32));
    assert_eq!(r.code, 0x1008);
    assert_eq!(r.params, vec![11]);

    let r = session::get_object_request(ObjectHandle::from(11u32));
    assert_eq!(r.code, 0x1009);
    assert_eq!(r.params, vec![11]);

    let r = session::get_partial_object_request(ObjectHandle::from(11u32), 100, 200);
    assert_eq!(r.code, 0x101B);
    assert_eq!(r.params, vec![11, 100, 200]);

    let r = session::send_object_info_request(StorageId::from(1u32), ObjectHandle::root());
    assert_eq!(r.code, 0x100C);
    assert_eq!(r.params, vec![1, 0xFFFFFFFF]);

    let r = session::send_object_request();
    assert_eq!(r.code, 0x100D);
    assert!(r.params.is_empty());
}

#[test]
fn parse_storage_ids_payload() {
    let mut w = Writer::new();
    w.write_ptp_u32_vec(&[0x10001, 0x20001]);
    let bytes = w.into_vec();
    let ids = session::parse_storage_ids(&bytes).unwrap();
    assert_eq!(ids, vec![StorageId::from(0x10001u32), StorageId::from(0x20001u32)]);
}

#[test]
fn parse_object_handles_payload() {
    let mut w = Writer::new();
    w.write_ptp_u32_vec(&[5, 6, 7]);
    let bytes = w.into_vec();
    let hs = session::parse_object_handles(&bytes).unwrap();
    assert_eq!(
        hs,
        vec![
            ObjectHandle::from(5u32),
            ObjectHandle::from(6u32),
            ObjectHandle::from(7u32)
        ]
    );
}

#[test]
fn parse_object_handles_rejects_trailing_bytes() {
    let mut w = Writer::new();
    w.write_ptp_u32_vec(&[5]);
    w.write_ptp_u8(0);
    let bytes = w.into_vec();
    match session::parse_object_handles(&bytes) {
        Err(Error::Malformed(m)) => assert_eq!(m, "trailing bytes"),
        _ => panic!("expected a malformed error"),
    }
}

#[test]
fn parse_num_objects_payload() {
    let mut w = Writer::new();
    w.write_ptp_u32(42);
    let bytes = w.into_vec();
    assert_eq!(session::parse_num_objects(&bytes).unwrap(), 42);
    assert!(session::parse_num_objects(&bytes[..3]).is_err());
}

#[test]
fn parse_new_object_handle_takes_the_third_word() {
    let mut w = Writer::new();
    w.write_ptp_u32(0x10001); // responder's storage id
    w.write_ptp_u32(0xFFFFFFFF); // parent handle
    w.write_ptp_u32(77); // the new object's handle
    let bytes = w.into_vec();
    assert_eq!(
        session::parse_new_object_handle(&bytes).unwrap(),
        ObjectHandle::from(77u32)
    );
}

#[test]
fn parse_storage_info_rejects_trailing_bytes() {
    let mut w = Writer::new();
    w.write_ptp_u16(0x0003);
    w.write_ptp_u16(0x0002);
    w.write_ptp_u16(0x0000);
    w.write_ptp_u64(0);
    w.write_ptp_u64(0);
    w.write_ptp_u32(0);
    w.write_ptp_str("");
    w.write_ptp_str("");
    w.write_ptp_u8(9); // one stray byte
    let bytes = w.into_vec();
    assert!(matches!(
        session::parse_storage_info(&bytes),
        Err(Error::Malformed(_))
    ));
    assert!(session::parse_storage_info(&bytes[..bytes.len() - 1]).is_ok());
}
