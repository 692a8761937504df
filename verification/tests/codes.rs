//! Code-space classification scenarios: standard, vendor, and reserved
//! ranges round-trip through their 16-bit wire values.

use ptp::AccessType;
use ptp::AssociationCode;
use ptp::CommandCode;
use ptp::ObjectHandle;
use ptp::StorageId;
use ptp::EventCode;
use ptp::FilesystemType;
use ptp::ObjectFormatCategory;
use ptp::ObjectFormatCode;
use ptp::ResponseCode;
use ptp::StandardCommandCode;
use ptp::StandardEventCode;
use ptp::StandardResponseCode;
use ptp::StorageType;

#[test]
fn command_code_standard() {
    assert_eq!(
        CommandCode::from_u16(0x1001),
        Some(CommandCode::Standard(StandardCommandCode::GetDeviceInfo))
    );
    assert_eq!(
        CommandCode::Standard(StandardCommandCode::GetDeviceInfo).to_u16(),
        0x1001
    );
}

#[test]
fn command_code_vendor_and_reserved() {
    assert_eq!(CommandCode::from_u16(0xC101), Some(CommandCode::Vendor(0xC101)));
    assert_eq!(CommandCode::from_u16(0x4101), Some(CommandCode::Reserved(0x4101)));
    assert_eq!(CommandCode::from_u16(0x0005), None);
    assert_eq!(CommandCode::Vendor(0xC101).to_u16(), 0xC101);
}

#[test]
fn event_code_classification() {
    assert_eq!(
        EventCode::from_u16(0xC000),
        Some(EventCode::Vendor(0xC000))
    );
    assert_eq!(
        EventCode::from_u16(0x4000),
        Some(EventCode::Standard(StandardEventCode::Undefined))
    );
    // a code in the reserved nibble that is not a standard constant
    assert_eq!(
        EventCode::from_u16(0x4100),
        Some(EventCode::Reserved(0x4100))
    );
    assert_eq!(EventCode::from_u16(0x9999), None);
}

#[test]
fn event_code_round_trip() {
    for n in [0x4000u16, 0x4005, 0x400C, 0x4100, 0xC000, 0xCFFF] {
        assert_eq!(EventCode::from_u16(n).unwrap().to_u16(), n);
    }
}

#[test]
fn response_code_total_classification() {
    assert_eq!(
        ResponseCode::from_u16(0x2001),
        Some(ResponseCode::Standard(StandardResponseCode::Success))
    );
    assert_eq!(
        ResponseCode::from_u16(0xC777),
        Some(ResponseCode::Vendor(0xC777))
    );
    // every other value is reserved: the classification is total
    assert_eq!(
        ResponseCode::from_u16(0x0123),
        Some(ResponseCode::Reserved(0x0123))
    );
    for n in [0u16, 0x2000, 0x2020, 0x7FFF, 0xC000, 0xFFFF] {
        assert_eq!(ResponseCode::from_u16(n).unwrap().to_u16(), n);
    }
}

#[test]
fn object_format_classification() {
    assert!(matches!(
        ObjectFormatCode::from_u16(0x3801),
        Some(ObjectFormatCode::Standard(_))
    ));
    assert_eq!(
        ObjectFormatCode::from_u16(0xFFFF),
        Some(ObjectFormatCode::ImageOnly)
    );
    assert_eq!(
        ObjectFormatCode::from_u16(0xC123),
        Some(ObjectFormatCode::Vendor(0xC123))
    );
    assert_eq!(
        ObjectFormatCode::from_u16(0x3123),
        Some(ObjectFormatCode::Reserved(0x3123))
    );
    assert_eq!(ObjectFormatCode::from_u16(0x9999), None);
    assert_eq!(ObjectFormatCode::ImageOnly.to_u16(), 0xFFFF);
}

#[test]
fn object_format_category() {
    assert_eq!(
        ObjectFormatCode::from_u16(0x3001).unwrap().category(),
        ObjectFormatCategory::Ancillary
    );
    assert_eq!(
        ObjectFormatCode::from_u16(0x3801).unwrap().category(),
        ObjectFormatCategory::Image
    );
    assert_eq!(
        ObjectFormatCode::ImageOnly.category(),
        ObjectFormatCategory::Image
    );
    assert_eq!(
        ObjectFormatCode::Vendor(0xC123).category(),
        ObjectFormatCategory::Unknown
    );
}

#[test]
fn association_code_classification() {
    assert!(matches!(
        AssociationCode::from_u16(0x0001),
        Some(AssociationCode::Standard(_))
    ));
    assert_eq!(
        AssociationCode::from_u16(0xC002),
        Some(AssociationCode::Vendor(0xC002))
    );
    assert_eq!(
        AssociationCode::from_u16(0x3002),
        Some(AssociationCode::Reserved(0x3002))
    );
    assert_eq!(AssociationCode::from_u16(0x8001), None);
}

#[test]
fn storage_domain_classifications_are_total() {
    for n in 0u16..=20 {
        assert_eq!(StorageType::from_u16(n).unwrap().to_u16(), n);
        assert_eq!(FilesystemType::from_u16(n).unwrap().to_u16(), n);
        assert_eq!(AccessType::from_u16(n).unwrap().to_u16(), n);
    }
    assert!(matches!(
        StorageType::from_u16(0x8001),
        Some(StorageType::Vendor(0x8001))
    ));
    assert!(matches!(
        FilesystemType::from_u16(0x8002),
        Some(FilesystemType::Vendor(0x8002))
    ));
    assert!(matches!(
        AccessType::from_u16(0x0005),
        Some(AccessType::Reserved(0x0005))
    ));
}

#[test]
fn code_hex_rendering() {
    assert_eq!(
        CommandCode::Standard(StandardCommandCode::GetDeviceInfo).hex_lower(),
        "1001"
    );
    assert_eq!(EventCode::Vendor(0xC000).hex_lower(), "c000");
    assert_eq!(ResponseCode::Reserved(0x0007).hex_lower(), "7");
}

#[test]
fn handle_display() {
    assert_eq!(ObjectHandle::root().display_string(), "0xffffffff");
    assert_eq!(StorageId::all().display_string(), "0xffffffff");
    assert_eq!(ObjectHandle::from(0x1Au32).display_string(), "0x0000001a");
}

#[test]
fn handle_conversions() {
    let h = ObjectHandle::from(7u32);
    let n: u32 = h.into();
    assert_eq!(n, 7);
    let s = StorageId::from(0x10001u32);
    let m: u32 = s.into();
    assert_eq!(m, 0x10001);
}
