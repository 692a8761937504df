//! PTP response codes and their classification.

use vstd::prelude::*;

verus! {

/// The standard PTP response codes.
#[derive(Debug, Clone, Copy, PartialEq, Eq, Hash, Structural)]
pub enum StandardResponseCode {
    Undefined,
    Success,
    GeneralError,
    SessionNotOpen,
    InvalidTransactionId,
    OperationNotSupported,
    ParameterNotSupported,
    IncompleteTransfer,
    InvalidStorageId,
    InvalidObjectHandle,
    DevicePropNotSupported,
    InvalidObjectFormatCode,
    StoreFull,
    ObjectWriteProtected,
    StoreReadOnly,
    AccessDenied,
    NoThumbnailPresent,
    SelfTestFailed,
    PartialDeletion,
    StoreNotAvailable,
    SpecificationByFormatUnsupported,
    NoValidObjectInfo,
    InvalidCodeFormat,
    UnknownVendorCode,
    CaptureAlreadyTerminated,
    DeviceBusy,
    InvalidParentObject,
    InvalidDevicePropFormat,
    InvalidDevicePropValue,
    InvalidParameter,
    SessionAlreadyOpen,
    TransactionCancelled,
    SpecificationOfDestinationUnsupported,
}

impl StandardResponseCode {
    /// The wire value of this standard code.
    pub open spec fn spec_to_u16(self) -> u16 {
        match self {
            StandardResponseCode::Undefined => 0x2000,
            StandardResponseCode::Success => 0x2001,
            StandardResponseCode::GeneralError => 0x2002,
            StandardResponseCode::SessionNotOpen => 0x2003,
            StandardResponseCode::InvalidTransactionId => 0x2004,
            StandardResponseCode::OperationNotSupported => 0x2005,
            StandardResponseCode::ParameterNotSupported => 0x2006,
            StandardResponseCode::IncompleteTransfer => 0x2007,
            StandardResponseCode::InvalidStorageId => 0x2008,
            StandardResponseCode::InvalidObjectHandle => 0x2009,
            StandardResponseCode::DevicePropNotSupported => 0x200A,
            StandardResponseCode::InvalidObjectFormatCode => 0x200B,
            StandardResponseCode::StoreFull => 0x200C,
            StandardResponseCode::ObjectWriteProtected => 0x200D,
            StandardResponseCode::StoreReadOnly => 0x200E,
            StandardResponseCode::AccessDenied => 0x200F,
            StandardResponseCode::NoThumbnailPresent => 0x2010,
            StandardResponseCode::SelfTestFailed => 0x2011,
            StandardResponseCode::PartialDeletion => 0x2012,
            StandardResponseCode::StoreNotAvailable => 0x2013,
            StandardResponseCode::SpecificationByFormatUnsupported => 0x2014,
            StandardResponseCode::NoValidObjectInfo => 0x2015,
            StandardResponseCode::InvalidCodeFormat => 0x2016,
            StandardResponseCode::UnknownVendorCode => 0x2017,
            StandardResponseCode::CaptureAlreadyTerminated => 0x2018,
            StandardResponseCode::DeviceBusy => 0x2019,
            StandardResponseCode::InvalidParentObject => 0x201A,
            StandardResponseCode::InvalidDevicePropFormat => 0x201B,
            StandardResponseCode::InvalidDevicePropValue => 0x201C,
            StandardResponseCode::InvalidParameter => 0x201D,
            StandardResponseCode::SessionAlreadyOpen => 0x201E,
            StandardResponseCode::TransactionCancelled => 0x201F,
            StandardResponseCode::SpecificationOfDestinationUnsupported => 0x2020,
        }
    }

    /// The standard code with the given wire value, if any.
    pub open spec fn spec_from_u16(n: u16) -> Option<StandardResponseCode> {
        if n == 0x2000 {
            Some(StandardResponseCode::Undefined)
        } else if n == 0x2001 {
            Some(StandardResponseCode::Success)
        } else if n == 0x2002 {
            Some(StandardResponseCode::GeneralError)
        } else if n == 0x2003 {
            Some(StandardResponseCode::SessionNotOpen)
        } else if n == 0x2004 {
            Some(StandardResponseCode::InvalidTransactionId)
        } else if n == 0x2005 {
            Some(StandardResponseCode::OperationNotSupported)
        } else if n == 0x2006 {
            Some(StandardResponseCode::ParameterNotSupported)
        } else if n == 0x2007 {
            Some(StandardResponseCode::IncompleteTransfer)
        } else if n == 0x2008 {
            Some(StandardResponseCode::InvalidStorageId)
        } else if n == 0x2009 {
            Some(StandardResponseCode::InvalidObjectHandle)
        } else if n == 0x200A {
            Some(StandardResponseCode::DevicePropNotSupported)
        } else if n == 0x200B {
            Some(StandardResponseCode::InvalidObjectFormatCode)
        } else if n == 0x200C {
            Some(StandardResponseCode::StoreFull)
        } else if n == 0x200D {
            Some(StandardResponseCode::ObjectWriteProtected)
        } else if n == 0x200E {
            Some(StandardResponseCode::StoreReadOnly)
        } else if n == 0x200F {
            Some(StandardResponseCode::AccessDenied)
        } else if n == 0x2010 {
            Some(StandardResponseCode::NoThumbnailPresent)
        } else if n == 0x2011 {
            Some(StandardResponseCode::SelfTestFailed)
        } else if n == 0x2012 {
            Some(StandardResponseCode::PartialDeletion)
        } else if n == 0x2013 {
            Some(StandardResponseCode::StoreNotAvailable)
        } else if n == 0x2014 {
            Some(StandardResponseCode::SpecificationByFormatUnsupported)
        } else if n == 0x2015 {
            Some(StandardResponseCode::NoValidObjectInfo)
        } else if n == 0x2016 {
            Some(StandardResponseCode::InvalidCodeFormat)
        } else if n == 0x2017 {
            Some(StandardResponseCode::UnknownVendorCode)
        } else if n == 0x2018 {
            Some(StandardResponseCode::CaptureAlreadyTerminated)
        } else if n == 0x2019 {
            Some(StandardResponseCode::DeviceBusy)
        } else if n == 0x201A {
            Some(StandardResponseCode::InvalidParentObject)
        } else if n == 0x201B {
            Some(StandardResponseCode::InvalidDevicePropFormat)
        } else if n == 0x201C {
            Some(StandardResponseCode::InvalidDevicePropValue)
        } else if n == 0x201D {
            Some(StandardResponseCode::InvalidParameter)
        } else if n == 0x201E {
            Some(StandardResponseCode::SessionAlreadyOpen)
        } else if n == 0x201F {
            Some(StandardResponseCode::TransactionCancelled)
        } else if n == 0x2020 {
            Some(StandardResponseCode::SpecificationOfDestinationUnsupported)
        } else {
            None
        }
    }

    /// Recover the wire value of this standard code.
    pub fn to_u16(self) -> (r: u16)
        ensures
            r == self.spec_to_u16(),
    {
        match self {
            StandardResponseCode::Undefined => 0x2000,
            StandardResponseCode::Success => 0x2001,
            StandardResponseCode::GeneralError => 0x2002,
            StandardResponseCode::SessionNotOpen => 0x2003,
            StandardResponseCode::InvalidTransactionId => 0x2004,
            StandardResponseCode::OperationNotSupported => 0x2005,
            StandardResponseCode::ParameterNotSupported => 0x2006,
            StandardResponseCode::IncompleteTransfer => 0x2007,
            StandardResponseCode::InvalidStorageId => 0x2008,
            StandardResponseCode::InvalidObjectHandle => 0x2009,
            StandardResponseCode::DevicePropNotSupported => 0x200A,
            StandardResponseCode::InvalidObjectFormatCode => 0x200B,
            StandardResponseCode::StoreFull => 0x200C,
            StandardResponseCode::ObjectWriteProtected => 0x200D,
            StandardResponseCode::StoreReadOnly => 0x200E,
            StandardResponseCode::AccessDenied => 0x200F,
            StandardResponseCode::NoThumbnailPresent => 0x2010,
            StandardResponseCode::SelfTestFailed => 0x2011,
            StandardResponseCode::PartialDeletion => 0x2012,
            StandardResponseCode::StoreNotAvailable => 0x2013,
            StandardResponseCode::SpecificationByFormatUnsupported => 0x2014,
            StandardResponseCode::NoValidObjectInfo => 0x2015,
            StandardResponseCode::InvalidCodeFormat => 0x2016,
            StandardResponseCode::UnknownVendorCode => 0x2017,
            StandardResponseCode::CaptureAlreadyTerminated => 0x2018,
            StandardResponseCode::DeviceBusy => 0x2019,
            StandardResponseCode::InvalidParentObject => 0x201A,
            StandardResponseCode::InvalidDevicePropFormat => 0x201B,
            StandardResponseCode::InvalidDevicePropValue => 0x201C,
            StandardResponseCode::InvalidParameter => 0x201D,
            StandardResponseCode::SessionAlreadyOpen => 0x201E,
            StandardResponseCode::TransactionCancelled => 0x201F,
            StandardResponseCode::SpecificationOfDestinationUnsupported => 0x2020,
        }
    }

    /// Look up the standard code with the given wire value.
    pub fn from_u16(n: u16) -> (r: Option<StandardResponseCode>)
        ensures
            r == StandardResponseCode::spec_from_u16(n),
    {
        if n == 0x2000 {
            Some(StandardResponseCode::Undefined)
        } else if n == 0x2001 {
            Some(StandardResponseCode::Success)
        } else if n == 0x2002 {
            Some(StandardResponseCode::GeneralError)
        } else if n == 0x2003 {
            Some(StandardResponseCode::SessionNotOpen)
        } else if n == 0x2004 {
            Some(StandardResponseCode::InvalidTransactionId)
        } else if n == 0x2005 {
            Some(StandardResponseCode::OperationNotSupported)
        } else if n == 0x2006 {
            Some(StandardResponseCode::ParameterNotSupported)
        } else if n == 0x2007 {
            Some(StandardResponseCode::IncompleteTransfer)
        } else if n == 0x2008 {
            Some(StandardResponseCode::InvalidStorageId)
        } else if n == 0x2009 {
            Some(StandardResponseCode::InvalidObjectHandle)
        } else if n == 0x200A {
            Some(StandardResponseCode::DevicePropNotSupported)
        } else if n == 0x200B {
            Some(StandardResponseCode::InvalidObjectFormatCode)
        } else if n == 0x200C {
            Some(StandardResponseCode::StoreFull)
        } else if n == 0x200D {
            Some(StandardResponseCode::ObjectWriteProtected)
        } else if n == 0x200E {
            Some(StandardResponseCode::StoreReadOnly)
        } else if n == 0x200F {
            Some(StandardResponseCode::AccessDenied)
        } else if n == 0x2010 {
            Some(StandardResponseCode::NoThumbnailPresent)
        } else if n == 0x2011 {
            Some(StandardResponseCode::SelfTestFailed)
        } else if n == 0x2012 {
            Some(StandardResponseCode::PartialDeletion)
        } else if n == 0x2013 {
            Some(StandardResponseCode::StoreNotAvailable)
        } else if n == 0x2014 {
            Some(StandardResponseCode::SpecificationByFormatUnsupported)
        } else if n == 0x2015 {
            Some(StandardResponseCode::NoValidObjectInfo)
        } else if n == 0x2016 {
            Some(StandardResponseCode::InvalidCodeFormat)
        } else if n == 0x2017 {
            Some(StandardResponseCode::UnknownVendorCode)
        } else if n == 0x2018 {
            Some(StandardResponseCode::CaptureAlreadyTerminated)
        } else if n == 0x2019 {
            Some(StandardResponseCode::DeviceBusy)
        } else if n == 0x201A {
            Some(StandardResponseCode::InvalidParentObject)
        } else if n == 0x201B {
            Some(StandardResponseCode::InvalidDevicePropFormat)
        } else if n == 0x201C {
            Some(StandardResponseCode::InvalidDevicePropValue)
        } else if n == 0x201D {
            Some(StandardResponseCode::InvalidParameter)
        } else if n == 0x201E {
            Some(StandardResponseCode::SessionAlreadyOpen)
        } else if n == 0x201F {
            Some(StandardResponseCode::TransactionCancelled)
        } else if n == 0x2020 {
            Some(StandardResponseCode::SpecificationOfDestinationUnsupported)
        } else {
            None
        }
    }
}

/// A PTP response code: standard, vendor-defined, or reserved.
#[derive(Debug, Clone, Copy, PartialEq, Eq, Hash, Structural)]
pub enum ResponseCode {
    Standard(StandardResponseCode),
    Vendor(u16),
    Reserved(u16),
}

impl ResponseCode {
    /// The wire value of this code.
    pub open spec fn spec_to_u16(self) -> u16 {
        match self {
            ResponseCode::Standard(c) => c.spec_to_u16(),
            ResponseCode::Vendor(n) => n,
            ResponseCode::Reserved(n) => n,
        }
    }

    /// Classify a wire value: standard codes take precedence, vendor codes have most-significant nibble 0xC,
    /// and any other value is reserved.
    pub open spec fn spec_from_u16(n: u16) -> Option<ResponseCode> {
        if StandardResponseCode::spec_from_u16(n) is Some {
            Some(ResponseCode::Standard(StandardResponseCode::spec_from_u16(n)->Some_0))
        } else if n / 0x1000 == 0xC {
            Some(ResponseCode::Vendor(n))
        } else {
            Some(ResponseCode::Reserved(n))
        }
    }

    /// Recover the wire value of this code.
    pub fn to_u16(self) -> (r: u16)
        ensures
            r == self.spec_to_u16(),
    {
        match self {
            ResponseCode::Standard(c) => c.to_u16(),
            ResponseCode::Vendor(n) => n,
            ResponseCode::Reserved(n) => n,
        }
    }

    /// Classify a wire value into this code space.
    pub fn from_u16(n: u16) -> (r: Option<ResponseCode>)
        ensures
            r == ResponseCode::spec_from_u16(n),
    {
        match StandardResponseCode::from_u16(n) {
            Some(c) => Some(ResponseCode::Standard(c)),
            None => {
                if n / 0x1000 == 0xC {
                    Some(ResponseCode::Vendor(n))
                } else {
                    Some(ResponseCode::Reserved(n))
                }
            },
        }
    }
}

/// Every wire value accepted by the ResponseCode classification round-trips:
/// converting the classified code back to a `u16` gives the original value.
pub proof fn lemma_response_code_round_trip(n: u16)
    ensures
        ResponseCode::spec_from_u16(n) is Some,
        ResponseCode::spec_from_u16(n)->Some_0.spec_to_u16() == n,
{
}

/// The wire value of every standard StandardResponseCode classifies back to the
/// standard variant, never to a vendor or reserved one.
pub proof fn lemma_response_code_standard(c: StandardResponseCode)
    ensures
        ResponseCode::spec_from_u16(c.spec_to_u16()) == Some(ResponseCode::Standard(c)),
{
}

impl StandardResponseCode {
    /// The lowercase hexadecimal rendering of this code's wire value.
    pub fn hex_lower(&self) -> (r: String)
        ensures
            r@ == crate::hex::spec_hex_digits(self.spec_to_u16() as int),
    {
        crate::hex::hex_u16_lower(self.to_u16())
    }
}

impl ResponseCode {
    /// The lowercase hexadecimal rendering of this code's wire value.
    pub fn hex_lower(&self) -> (r: String)
        ensures
            r@ == crate::hex::spec_hex_digits(self.spec_to_u16() as int),
    {
        crate::hex::hex_u16_lower(self.to_u16())
    }
}

impl From<StandardResponseCode> for ResponseCode {
    fn from(code: StandardResponseCode) -> (r: ResponseCode) {
        ResponseCode::Standard(code)
    }
}

impl vstd::std_specs::convert::FromSpecImpl<StandardResponseCode> for ResponseCode {
    open spec fn obeys_from_spec() -> bool {
        true
    }

    open spec fn from_spec(code: StandardResponseCode) -> ResponseCode {
        ResponseCode::Standard(code)
    }
}

} // verus!
