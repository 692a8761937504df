//! PTP operation (command) codes and their classification.

use vstd::prelude::*;

verus! {

/// The standard PTP operation codes.
#[derive(Debug, Clone, Copy, PartialEq, Eq, Hash, Structural)]
pub enum StandardCommandCode {
    Undefined,
    GetDeviceInfo,
    OpenSession,
    CloseSession,
    GetStorageIDs,
    GetStorageInfo,
    GetNumObjects,
    GetObjectHandles,
    GetObjectInfo,
    GetObject,
    GetThumb,
    DeleteObject,
    SendObjectInfo,
    SendObject,
    InitiateCapture,
    FormatStore,
    ResetDevice,
    SelfTest,
    SetObjectProtection,
    PowerDown,
    GetDevicePropDesc,
    GetDevicePropValue,
    SetDevicePropValue,
    ResetDevicePropValue,
    TerminateOpenCapture,
    MoveObject,
    CopyObject,
    GetPartialObject,
    InitiateOpenCapture,
}

impl StandardCommandCode {
    /// The wire value of this standard code.
    pub open spec fn spec_to_u16(self) -> u16 {
        match self {
            StandardCommandCode::Undefined => 0x1000,
            StandardCommandCode::GetDeviceInfo => 0x1001,
            StandardCommandCode::OpenSession => 0x1002,
            StandardCommandCode::CloseSession => 0x1003,
            StandardCommandCode::GetStorageIDs => 0x1004,
            StandardCommandCode::GetStorageInfo => 0x1005,
            StandardCommandCode::GetNumObjects => 0x1006,
            StandardCommandCode::GetObjectHandles => 0x1007,
            StandardCommandCode::GetObjectInfo => 0x1008,
            StandardCommandCode::GetObject => 0x1009,
            StandardCommandCode::GetThumb => 0x100A,
            StandardCommandCode::DeleteObject => 0x100B,
            StandardCommandCode::SendObjectInfo => 0x100C,
            StandardCommandCode::SendObject => 0x100D,
            StandardCommandCode::InitiateCapture => 0x100E,
            StandardCommandCode::FormatStore => 0x100F,
            StandardCommandCode::ResetDevice => 0x1010,
            StandardCommandCode::SelfTest => 0x1011,
            StandardCommandCode::SetObjectProtection => 0x1012,
            StandardCommandCode::PowerDown => 0x1013,
            StandardCommandCode::GetDevicePropDesc => 0x1014,
            StandardCommandCode::GetDevicePropValue => 0x1015,
            StandardCommandCode::SetDevicePropValue => 0x1016,
            StandardCommandCode::ResetDevicePropValue => 0x1017,
            StandardCommandCode::TerminateOpenCapture => 0x1018,
            StandardCommandCode::MoveObject => 0x1019,
            StandardCommandCode::CopyObject => 0x101A,
            StandardCommandCode::GetPartialObject => 0x101B,
            StandardCommandCode::InitiateOpenCapture => 0x101C,
        }
    }

    /// The standard code with the given wire value, if any.
    pub open spec fn spec_from_u16(n: u16) -> Option<StandardCommandCode> {
        if n == 0x1000 {
            Some(StandardCommandCode::Undefined)
        } else if n == 0x1001 {
            Some(StandardCommandCode::GetDeviceInfo)
        } else if n == 0x1002 {
            Some(StandardCommandCode::OpenSession)
        } else if n == 0x1003 {
            Some(StandardCommandCode::CloseSession)
        } else if n == 0x1004 {
            Some(StandardCommandCode::GetStorageIDs)
        } else if n == 0x1005 {
            Some(StandardCommandCode::GetStorageInfo)
        } else if n == 0x1006 {
            Some(StandardCommandCode::GetNumObjects)
        } else if n == 0x1007 {
            Some(StandardCommandCode::GetObjectHandles)
        } else if n == 0x1008 {
            Some(StandardCommandCode::GetObjectInfo)
        } else if n == 0x1009 {
            Some(StandardCommandCode::GetObject)
        } else if n == 0x100A {
            Some(StandardCommandCode::GetThumb)
        } else if n == 0x100B {
            Some(StandardCommandCode::DeleteObject)
        } else if n == 0x100C {
            Some(StandardCommandCode::SendObjectInfo)
        } else if n == 0x100D {
            Some(StandardCommandCode::SendObject)
        } else if n == 0x100E {
            Some(StandardCommandCode::InitiateCapture)
        } else if n == 0x100F {
            Some(StandardCommandCode::FormatStore)
        } else if n == 0x1010 {
            Some(StandardCommandCode::ResetDevice)
        } else if n == 0x1011 {
            Some(StandardCommandCode::SelfTest)
        } else if n == 0x1012 {
            Some(StandardCommandCode::SetObjectProtection)
        } else if n == 0x1013 {
            Some(StandardCommandCode::PowerDown)
        } else if n == 0x1014 {
            Some(StandardCommandCode::GetDevicePropDesc)
        } else if n == 0x1015 {
            Some(StandardCommandCode::GetDevicePropValue)
        } else if n == 0x1016 {
            Some(StandardCommandCode::SetDevicePropValue)
        } else if n == 0x1017 {
            Some(StandardCommandCode::ResetDevicePropValue)
        } else if n == 0x1018 {
            Some(StandardCommandCode::TerminateOpenCapture)
        } else if n == 0x1019 {
            Some(StandardCommandCode::MoveObject)
        } else if n == 0x101A {
            Some(StandardCommandCode::CopyObject)
        } else if n == 0x101B {
            Some(StandardCommandCode::GetPartialObject)
        } else if n == 0x101C {
            Some(StandardCommandCode::InitiateOpenCapture)
        } else {
            None
        }
    }

    /// Recover the wire value of this standard code.
    pub fn to_u16(self) -> (r: u16)
        ensures
            r == self.spec_to_u16(),
    {
        match self {
            StandardCommandCode::Undefined => 0x1000,
            StandardCommandCode::GetDeviceInfo => 0x1001,
            StandardCommandCode::OpenSession => 0x1002,
            StandardCommandCode::CloseSession => 0x1003,
            StandardCommandCode::GetStorageIDs => 0x1004,
            StandardCommandCode::GetStorageInfo => 0x1005,
            StandardCommandCode::GetNumObjects => 0x1006,
            StandardCommandCode::GetObjectHandles => 0x1007,
            StandardCommandCode::GetObjectInfo => 0x1008,
            StandardCommandCode::GetObject => 0x1009,
            StandardCommandCode::GetThumb => 0x100A,
            StandardCommandCode::DeleteObject => 0x100B,
            StandardCommandCode::SendObjectInfo => 0x100C,
            StandardCommandCode::SendObject => 0x100D,
            StandardCommandCode::InitiateCapture => 0x100E,
            StandardCommandCode::FormatStore => 0x100F,
            StandardCommandCode::ResetDevice => 0x1010,
            StandardCommandCode::SelfTest => 0x1011,
            StandardCommandCode::SetObjectProtection => 0x1012,
            StandardCommandCode::PowerDown => 0x1013,
            StandardCommandCode::GetDevicePropDesc => 0x1014,
            StandardCommandCode::GetDevicePropValue => 0x1015,
            StandardCommandCode::SetDevicePropValue => 0x1016,
            StandardCommandCode::ResetDevicePropValue => 0x1017,
            StandardCommandCode::TerminateOpenCapture => 0x1018,
            StandardCommandCode::MoveObject => 0x1019,
            StandardCommandCode::CopyObject => 0x101A,
            StandardCommandCode::GetPartialObject => 0x101B,
            StandardCommandCode::InitiateOpenCapture => 0x101C,
        }
    }

    /// Look up the standard code with the given wire value.
    pub fn from_u16(n: u16) -> (r: Option<StandardCommandCode>)
        ensures
            r == StandardCommandCode::spec_from_u16(n),
    {
        if n == 0x1000 {
            Some(StandardCommandCode::Undefined)
        } else if n == 0x1001 {
            Some(StandardCommandCode::GetDeviceInfo)
        } else if n == 0x1002 {
            Some(StandardCommandCode::OpenSession)
        } else if n == 0x1003 {
            Some(StandardCommandCode::CloseSession)
        } else if n == 0x1004 {
            Some(StandardCommandCode::GetStorageIDs)
        } else if n == 0x1005 {
            Some(StandardCommandCode::GetStorageInfo)
        } else if n == 0x1006 {
            Some(StandardCommandCode::GetNumObjects)
        } else if n == 0x1007 {
            Some(StandardCommandCode::GetObjectHandles)
        } else if n == 0x1008 {
            Some(StandardCommandCode::GetObjectInfo)
        } else if n == 0x1009 {
            Some(StandardCommandCode::GetObject)
        } else if n == 0x100A {
            Some(StandardCommandCode::GetThumb)
        } else if n == 0x100B {
            Some(StandardCommandCode::DeleteObject)
        } else if n == 0x100C {
            Some(StandardCommandCode::SendObjectInfo)
        } else if n == 0x100D {
            Some(StandardCommandCode::SendObject)
        } else if n == 0x100E {
            Some(StandardCommandCode::InitiateCapture)
        } else if n == 0x100F {
            Some(StandardCommandCode::FormatStore)
        } else if n == 0x1010 {
            Some(StandardCommandCode::ResetDevice)
        } else if n == 0x1011 {
            Some(StandardCommandCode::SelfTest)
        } else if n == 0x1012 {
            Some(StandardCommandCode::SetObjectProtection)
        } else if n == 0x1013 {
            Some(StandardCommandCode::PowerDown)
        } else if n == 0x1014 {
            Some(StandardCommandCode::GetDevicePropDesc)
        } else if n == 0x1015 {
            Some(StandardCommandCode::GetDevicePropValue)
        } else if n == 0x1016 {
            Some(StandardCommandCode::SetDevicePropValue)
        } else if n == 0x1017 {
            Some(StandardCommandCode::ResetDevicePropValue)
        } else if n == 0x1018 {
            Some(StandardCommandCode::TerminateOpenCapture)
        } else if n == 0x1019 {
            Some(StandardCommandCode::MoveObject)
        } else if n == 0x101A {
            Some(StandardCommandCode::CopyObject)
        } else if n == 0x101B {
            Some(StandardCommandCode::GetPartialObject)
        } else if n == 0x101C {
            Some(StandardCommandCode::InitiateOpenCapture)
        } else {
            None
        }
    }
}

/// A PTP operation code: standard, vendor-defined, or reserved.
#[derive(Debug, Clone, Copy, PartialEq, Eq, Hash, Structural)]
pub enum CommandCode {
    Standard(StandardCommandCode),
    Vendor(u16),
    Reserved(u16),
}

impl CommandCode {
    /// The wire value of this code.
    pub open spec fn spec_to_u16(self) -> u16 {
        match self {
            CommandCode::Standard(c) => c.spec_to_u16(),
            CommandCode::Vendor(n) => n,
            CommandCode::Reserved(n) => n,
        }
    }

    /// Classify a wire value: standard codes take precedence, vendor codes have most-significant nibble 0xC,
    /// and reserved codes have most-significant nibble 0x4.
    pub open spec fn spec_from_u16(n: u16) -> Option<CommandCode> {
        if StandardCommandCode::spec_from_u16(n) is Some {
            Some(CommandCode::Standard(StandardCommandCode::spec_from_u16(n)->Some_0))
        } else if n / 0x1000 == 0xC {
            Some(CommandCode::Vendor(n))
        } else if n / 0x1000 == 0x4 {
            Some(CommandCode::Reserved(n))
        } else {
            None
        }
    }

    /// Recover the wire value of this code.
    pub fn to_u16(self) -> (r: u16)
        ensures
            r == self.spec_to_u16(),
    {
        match self {
            CommandCode::Standard(c) => c.to_u16(),
            CommandCode::Vendor(n) => n,
            CommandCode::Reserved(n) => n,
        }
    }

    /// Classify a wire value into this code space.
    pub fn from_u16(n: u16) -> (r: Option<CommandCode>)
        ensures
            r == CommandCode::spec_from_u16(n),
    {
        match StandardCommandCode::from_u16(n) {
            Some(c) => Some(CommandCode::Standard(c)),
            None => {
                if n / 0x1000 == 0xC {
                    Some(CommandCode::Vendor(n))
                } else if n / 0x1000 == 0x4 {
                    Some(CommandCode::Reserved(n))
                } else {
                    None
                }
            },
        }
    }
}

/// Every wire value accepted by the CommandCode classification round-trips:
/// converting the classified code back to a `u16` gives the original value.
pub proof fn lemma_command_code_round_trip(n: u16)
    requires
        CommandCode::spec_from_u16(n) is Some,
    ensures
        CommandCode::spec_from_u16(n)->Some_0.spec_to_u16() == n,
{
}

/// The wire value of every standard StandardCommandCode classifies back to the
/// standard variant, never to a vendor or reserved one.
pub proof fn lemma_command_code_standard(c: StandardCommandCode)
    ensures
        CommandCode::spec_from_u16(c.spec_to_u16()) == Some(CommandCode::Standard(c)),
{
}

impl StandardCommandCode {
    /// The lowercase hexadecimal rendering of this code's wire value.
    pub fn hex_lower(&self) -> (r: String)
        ensures
            r@ == crate::hex::spec_hex_digits(self.spec_to_u16() as int),
    {
        crate::hex::hex_u16_lower(self.to_u16())
    }
}

impl CommandCode {
    /// The lowercase hexadecimal rendering of this code's wire value.
    pub fn hex_lower(&self) -> (r: String)
        ensures
            r@ == crate::hex::spec_hex_digits(self.spec_to_u16() as int),
    {
        crate::hex::hex_u16_lower(self.to_u16())
    }
}

impl From<StandardCommandCode> for CommandCode {
    fn from(code: StandardCommandCode) -> (r: CommandCode) {
        CommandCode::Standard(code)
    }
}

impl vstd::std_specs::convert::FromSpecImpl<StandardCommandCode> for CommandCode {
    open spec fn obeys_from_spec() -> bool {
        true
    }

    open spec fn from_spec(code: StandardCommandCode) -> CommandCode {
        CommandCode::Standard(code)
    }
}

} // verus!
