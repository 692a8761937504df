//! PTP storage-related code spaces: object formats, association codes,
//! access capability, filesystem type, and storage type.

use vstd::prelude::*;

verus! {

/// The standard PTP object format codes.
#[derive(Debug, Clone, Copy, PartialEq, Eq, Hash, Structural)]
pub enum StandardObjectFormatCode {
    UndefinedNonImage,
    Association,
    Script,
    Executable,
    Text,
    Html,
    Dpof,
    Aiff,
    Wav,
    Mp3,
    Avi,
    Mpeg,
    Asf,
    UndefinedImage,
    ExifJpeg,
    TiffEp,
    FlashPix,
    Bmp,
    Ciff,
    UndefinedReserved,
    Gif,
    Jfif,
    Pcd,
    Pict,
    Png,
    UndefinedReserved2,
    Tiff,
    TiffIt,
    Jp2,
    Jpx,
}

impl StandardObjectFormatCode {
    /// The wire value of this standard code.
    pub open spec fn spec_to_u16(self) -> u16 {
        match self {
            StandardObjectFormatCode::UndefinedNonImage => 0x3000,
            StandardObjectFormatCode::Association => 0x3001,
            StandardObjectFormatCode::Script => 0x3002,
            StandardObjectFormatCode::Executable => 0x3003,
            StandardObjectFormatCode::Text => 0x3004,
            StandardObjectFormatCode::Html => 0x3005,
            StandardObjectFormatCode::Dpof => 0x3006,
            StandardObjectFormatCode::Aiff => 0x3007,
            StandardObjectFormatCode::Wav => 0x3008,
            StandardObjectFormatCode::Mp3 => 0x3009,
            StandardObjectFormatCode::Avi => 0x300A,
            StandardObjectFormatCode::Mpeg => 0x300B,
            StandardObjectFormatCode::Asf => 0x300C,
            StandardObjectFormatCode::UndefinedImage => 0x3800,
            StandardObjectFormatCode::ExifJpeg => 0x3801,
            StandardObjectFormatCode::TiffEp => 0x3802,
            StandardObjectFormatCode::FlashPix => 0x3803,
            StandardObjectFormatCode::Bmp => 0x3804,
            StandardObjectFormatCode::Ciff => 0x3805,
            StandardObjectFormatCode::UndefinedReserved => 0x3806,
            StandardObjectFormatCode::Gif => 0x3807,
            StandardObjectFormatCode::Jfif => 0x3808,
            StandardObjectFormatCode::Pcd => 0x3809,
            StandardObjectFormatCode::Pict => 0x380A,
            StandardObjectFormatCode::Png => 0x380B,
            StandardObjectFormatCode::UndefinedReserved2 => 0x380C,
            StandardObjectFormatCode::Tiff => 0x380D,
            StandardObjectFormatCode::TiffIt => 0x380E,
            StandardObjectFormatCode::Jp2 => 0x380F,
            StandardObjectFormatCode::Jpx => 0x3810,
        }
    }

    /// The standard code with the given wire value, if any.
    pub open spec fn spec_from_u16(n: u16) -> Option<StandardObjectFormatCode> {
        if n == 0x3000 {
            Some(StandardObjectFormatCode::UndefinedNonImage)
        } else if n == 0x3001 {
            Some(StandardObjectFormatCode::Association)
        } else if n == 0x3002 {
            Some(StandardObjectFormatCode::Script)
        } else if n == 0x3003 {
            Some(StandardObjectFormatCode::Executable)
        } else if n == 0x3004 {
            Some(StandardObjectFormatCode::Text)
        } else if n == 0x3005 {
            Some(StandardObjectFormatCode::Html)
        } else if n == 0x3006 {
            Some(StandardObjectFormatCode::Dpof)
        } else if n == 0x3007 {
            Some(StandardObjectFormatCode::Aiff)
        } else if n == 0x3008 {
            Some(StandardObjectFormatCode::Wav)
        } else if n == 0x3009 {
            Some(StandardObjectFormatCode::Mp3)
        } else if n == 0x300A {
            Some(StandardObjectFormatCode::Avi)
        } else if n == 0x300B {
            Some(StandardObjectFormatCode::Mpeg)
        } else if n == 0x300C {
            Some(StandardObjectFormatCode::Asf)
        } else if n == 0x3800 {
            Some(StandardObjectFormatCode::UndefinedImage)
        } else if n == 0x3801 {
            Some(StandardObjectFormatCode::ExifJpeg)
        } else if n == 0x3802 {
            Some(StandardObjectFormatCode::TiffEp)
        } else if n == 0x3803 {
            Some(StandardObjectFormatCode::FlashPix)
        } else if n == 0x3804 {
            Some(StandardObjectFormatCode::Bmp)
        } else if n == 0x3805 {
            Some(StandardObjectFormatCode::Ciff)
        } else if n == 0x3806 {
            Some(StandardObjectFormatCode::UndefinedReserved)
        } else if n == 0x3807 {
            Some(StandardObjectFormatCode::Gif)
        } else if n == 0x3808 {
            Some(StandardObjectFormatCode::Jfif)
        } else if n == 0x3809 {
            Some(StandardObjectFormatCode::Pcd)
        } else if n == 0x380A {
            Some(StandardObjectFormatCode::Pict)
        } else if n == 0x380B {
            Some(StandardObjectFormatCode::Png)
        } else if n == 0x380C {
            Some(StandardObjectFormatCode::UndefinedReserved2)
        } else if n == 0x380D {
            Some(StandardObjectFormatCode::Tiff)
        } else if n == 0x380E {
            Some(StandardObjectFormatCode::TiffIt)
        } else if n == 0x380F {
            Some(StandardObjectFormatCode::Jp2)
        } else if n == 0x3810 {
            Some(StandardObjectFormatCode::Jpx)
        } else {
            None
        }
    }

    /// Recover the wire value of this standard code.
    pub fn to_u16(self) -> (r: u16)
        ensures
            r == self.spec_to_u16(),
    {
        match self {
            StandardObjectFormatCode::UndefinedNonImage => 0x3000,
            StandardObjectFormatCode::Association => 0x3001,
            StandardObjectFormatCode::Script => 0x3002,
            StandardObjectFormatCode::Executable => 0x3003,
            StandardObjectFormatCode::Text => 0x3004,
            StandardObjectFormatCode::Html => 0x3005,
            StandardObjectFormatCode::Dpof => 0x3006,
            StandardObjectFormatCode::Aiff => 0x3007,
            StandardObjectFormatCode::Wav => 0x3008,
            StandardObjectFormatCode::Mp3 => 0x3009,
            StandardObjectFormatCode::Avi => 0x300A,
            StandardObjectFormatCode::Mpeg => 0x300B,
            StandardObjectFormatCode::Asf => 0x300C,
            StandardObjectFormatCode::UndefinedImage => 0x3800,
            StandardObjectFormatCode::ExifJpeg => 0x3801,
            StandardObjectFormatCode::TiffEp => 0x3802,
            StandardObjectFormatCode::FlashPix => 0x3803,
            StandardObjectFormatCode::Bmp => 0x3804,
            StandardObjectFormatCode::Ciff => 0x3805,
            StandardObjectFormatCode::UndefinedReserved => 0x3806,
            StandardObjectFormatCode::Gif => 0x3807,
            StandardObjectFormatCode::Jfif => 0x3808,
            StandardObjectFormatCode::Pcd => 0x3809,
            StandardObjectFormatCode::Pict => 0x380A,
            StandardObjectFormatCode::Png => 0x380B,
            StandardObjectFormatCode::UndefinedReserved2 => 0x380C,
            StandardObjectFormatCode::Tiff => 0x380D,
            StandardObjectFormatCode::TiffIt => 0x380E,
            StandardObjectFormatCode::Jp2 => 0x380F,
            StandardObjectFormatCode::Jpx => 0x3810,
        }
    }

    /// Look up the standard code with the given wire value.
    pub fn from_u16(n: u16) -> (r: Option<StandardObjectFormatCode>)
        ensures
            r == StandardObjectFormatCode::spec_from_u16(n),
    {
        if n == 0x3000 {
            Some(StandardObjectFormatCode::UndefinedNonImage)
        } else if n == 0x3001 {
            Some(StandardObjectFormatCode::Association)
        } else if n == 0x3002 {
            Some(StandardObjectFormatCode::Script)
        } else if n == 0x3003 {
            Some(StandardObjectFormatCode::Executable)
        } else if n == 0x3004 {
            Some(StandardObjectFormatCode::Text)
        } else if n == 0x3005 {
            Some(StandardObjectFormatCode::Html)
        } else if n == 0x3006 {
            Some(StandardObjectFormatCode::Dpof)
        } else if n == 0x3007 {
            Some(StandardObjectFormatCode::Aiff)
        } else if n == 0x3008 {
            Some(StandardObjectFormatCode::Wav)
        } else if n == 0x3009 {
            Some(StandardObjectFormatCode::Mp3)
        } else if n == 0x300A {
            Some(StandardObjectFormatCode::Avi)
        } else if n == 0x300B {
            Some(StandardObjectFormatCode::Mpeg)
        } else if n == 0x300C {
            Some(StandardObjectFormatCode::Asf)
        } else if n == 0x3800 {
            Some(StandardObjectFormatCode::UndefinedImage)
        } else if n == 0x3801 {
            Some(StandardObjectFormatCode::ExifJpeg)
        } else if n == 0x3802 {
            Some(StandardObjectFormatCode::TiffEp)
        } else if n == 0x3803 {
            Some(StandardObjectFormatCode::FlashPix)
        } else if n == 0x3804 {
            Some(StandardObjectFormatCode::Bmp)
        } else if n == 0x3805 {
            Some(StandardObjectFormatCode::Ciff)
        } else if n == 0x3806 {
            Some(StandardObjectFormatCode::UndefinedReserved)
        } else if n == 0x3807 {
            Some(StandardObjectFormatCode::Gif)
        } else if n == 0x3808 {
            Some(StandardObjectFormatCode::Jfif)
        } else if n == 0x3809 {
            Some(StandardObjectFormatCode::Pcd)
        } else if n == 0x380A {
            Some(StandardObjectFormatCode::Pict)
        } else if n == 0x380B {
            Some(StandardObjectFormatCode::Png)
        } else if n == 0x380C {
            Some(StandardObjectFormatCode::UndefinedReserved2)
        } else if n == 0x380D {
            Some(StandardObjectFormatCode::Tiff)
        } else if n == 0x380E {
            Some(StandardObjectFormatCode::TiffIt)
        } else if n == 0x380F {
            Some(StandardObjectFormatCode::Jp2)
        } else if n == 0x3810 {
            Some(StandardObjectFormatCode::Jpx)
        } else {
            None
        }
    }
}

/// A PTP object format code; `ImageOnly` (0xFFFF) is a distinguished sentinel.
#[derive(Debug, Clone, Copy, PartialEq, Eq, Hash, Structural)]
pub enum ObjectFormatCode {
    Standard(StandardObjectFormatCode),
    Vendor(u16),
    Reserved(u16),
    ImageOnly,
}

impl ObjectFormatCode {
    /// The wire value of this code.
    pub open spec fn spec_to_u16(self) -> u16 {
        match self {
            ObjectFormatCode::Standard(c) => c.spec_to_u16(),
            ObjectFormatCode::Vendor(n) => n,
            ObjectFormatCode::Reserved(n) => n,
            ObjectFormatCode::ImageOnly => 0xFFFF,
        }
    }

    /// Classify a wire value: standard codes take precedence, vendor codes have most-significant nibble 0xC,
    /// and reserved codes have most-significant nibble 0x3.
    pub open spec fn spec_from_u16(n: u16) -> Option<ObjectFormatCode> {
        if StandardObjectFormatCode::spec_from_u16(n) is Some {
            Some(ObjectFormatCode::Standard(StandardObjectFormatCode::spec_from_u16(n)->Some_0))
        } else if n == 0xFFFF {
            Some(ObjectFormatCode::ImageOnly)
        } else if n / 0x1000 == 0xC {
            Some(ObjectFormatCode::Vendor(n))
        } else if n / 0x1000 == 0x3 {
            Some(ObjectFormatCode::Reserved(n))
        } else {
            None
        }
    }

    /// Recover the wire value of this code.
    pub fn to_u16(self) -> (r: u16)
        ensures
            r == self.spec_to_u16(),
    {
        match self {
            ObjectFormatCode::Standard(c) => c.to_u16(),
            ObjectFormatCode::Vendor(n) => n,
            ObjectFormatCode::Reserved(n) => n,
            ObjectFormatCode::ImageOnly => 0xFFFF,
        }
    }

    /// Classify a wire value into this code space.
    pub fn from_u16(n: u16) -> (r: Option<ObjectFormatCode>)
        ensures
            r == ObjectFormatCode::spec_from_u16(n),
    {
        match StandardObjectFormatCode::from_u16(n) {
            Some(c) => Some(ObjectFormatCode::Standard(c)),
            None => {
                if n == 0xFFFF {
                    Some(ObjectFormatCode::ImageOnly)
                } else if n / 0x1000 == 0xC {
                    Some(ObjectFormatCode::Vendor(n))
                } else if n / 0x1000 == 0x3 {
                    Some(ObjectFormatCode::Reserved(n))
                } else {
                    None
                }
            },
        }
    }
}

/// Every wire value accepted by the ObjectFormatCode classification round-trips:
/// converting the classified code back to a `u16` gives the original value.
pub proof fn lemma_object_format_code_round_trip(n: u16)
    requires
        ObjectFormatCode::spec_from_u16(n) is Some,
    ensures
        ObjectFormatCode::spec_from_u16(n)->Some_0.spec_to_u16() == n,
{
}

/// The wire value of every standard StandardObjectFormatCode classifies back to the
/// standard variant, never to a vendor or reserved one.
pub proof fn lemma_object_format_code_standard(c: StandardObjectFormatCode)
    ensures
        ObjectFormatCode::spec_from_u16(c.spec_to_u16()) == Some(ObjectFormatCode::Standard(c)),
{
}
/// The standard PTP association codes.
#[derive(Debug, Clone, Copy, PartialEq, Eq, Hash, Structural)]
pub enum StandardAssociationCode {
    Undefined,
    GenericFolder,
    Album,
    TimeSequence,
    PanoramicHorizontal,
    PanoramicVertical,
    Panoramic2D,
    AncillaryData,
}

impl StandardAssociationCode {
    /// The wire value of this standard code.
    pub open spec fn spec_to_u16(self) -> u16 {
        match self {
            StandardAssociationCode::Undefined => 0x0000,
            StandardAssociationCode::GenericFolder => 0x0001,
            StandardAssociationCode::Album => 0x0002,
            StandardAssociationCode::TimeSequence => 0x0003,
            StandardAssociationCode::PanoramicHorizontal => 0x0004,
            StandardAssociationCode::PanoramicVertical => 0x0005,
            StandardAssociationCode::Panoramic2D => 0x0006,
            StandardAssociationCode::AncillaryData => 0x0007,
        }
    }

    /// The standard code with the given wire value, if any.
    pub open spec fn spec_from_u16(n: u16) -> Option<StandardAssociationCode> {
        if n == 0x0000 {
            Some(StandardAssociationCode::Undefined)
        } else if n == 0x0001 {
            Some(StandardAssociationCode::GenericFolder)
        } else if n == 0x0002 {
            Some(StandardAssociationCode::Album)
        } else if n == 0x0003 {
            Some(StandardAssociationCode::TimeSequence)
        } else if n == 0x0004 {
            Some(StandardAssociationCode::PanoramicHorizontal)
        } else if n == 0x0005 {
            Some(StandardAssociationCode::PanoramicVertical)
        } else if n == 0x0006 {
            Some(StandardAssociationCode::Panoramic2D)
        } else if n == 0x0007 {
            Some(StandardAssociationCode::AncillaryData)
        } else {
            None
        }
    }

    /// Recover the wire value of this standard code.
    pub fn to_u16(self) -> (r: u16)
        ensures
            r == self.spec_to_u16(),
    {
        match self {
            StandardAssociationCode::Undefined => 0x0000,
            StandardAssociationCode::GenericFolder => 0x0001,
            StandardAssociationCode::Album => 0x0002,
            StandardAssociationCode::TimeSequence => 0x0003,
            StandardAssociationCode::PanoramicHorizontal => 0x0004,
            StandardAssociationCode::PanoramicVertical => 0x0005,
            StandardAssociationCode::Panoramic2D => 0x0006,
            StandardAssociationCode::AncillaryData => 0x0007,
        }
    }

    /// Look up the standard code with the given wire value.
    pub fn from_u16(n: u16) -> (r: Option<StandardAssociationCode>)
        ensures
            r == StandardAssociationCode::spec_from_u16(n),
    {
        if n == 0x0000 {
            Some(StandardAssociationCode::Undefined)
        } else if n == 0x0001 {
            Some(StandardAssociationCode::GenericFolder)
        } else if n == 0x0002 {
            Some(StandardAssociationCode::Album)
        } else if n == 0x0003 {
            Some(StandardAssociationCode::TimeSequence)
        } else if n == 0x0004 {
            Some(StandardAssociationCode::PanoramicHorizontal)
        } else if n == 0x0005 {
            Some(StandardAssociationCode::PanoramicVertical)
        } else if n == 0x0006 {
            Some(StandardAssociationCode::Panoramic2D)
        } else if n == 0x0007 {
            Some(StandardAssociationCode::AncillaryData)
        } else {
            None
        }
    }
}

/// A PTP association code: standard, vendor-defined, or reserved.
#[derive(Debug, Clone, Copy, PartialEq, Eq, Hash, Structural)]
pub enum AssociationCode {
    Standard(StandardAssociationCode),
    Vendor(u16),
    Reserved(u16),
}

impl AssociationCode {
    /// The wire value of this code.
    pub open spec fn spec_to_u16(self) -> u16 {
        match self {
            AssociationCode::Standard(c) => c.spec_to_u16(),
            AssociationCode::Vendor(n) => n,
            AssociationCode::Reserved(n) => n,
        }
    }

    /// Classify a wire value: standard codes take precedence, vendor codes have most-significant nibble 0xC,
    /// and reserved codes have most-significant nibble 0x3.
    pub open spec fn spec_from_u16(n: u16) -> Option<AssociationCode> {
        if StandardAssociationCode::spec_from_u16(n) is Some {
            Some(AssociationCode::Standard(StandardAssociationCode::spec_from_u16(n)->Some_0))
        } else if n / 0x1000 == 0xC {
            Some(AssociationCode::Vendor(n))
        } else if n / 0x1000 == 0x3 {
            Some(AssociationCode::Reserved(n))
        } else {
            None
        }
    }

    /// Recover the wire value of this code.
    pub fn to_u16(self) -> (r: u16)
        ensures
            r == self.spec_to_u16(),
    {
        match self {
            AssociationCode::Standard(c) => c.to_u16(),
            AssociationCode::Vendor(n) => n,
            AssociationCode::Reserved(n) => n,
        }
    }

    /// Classify a wire value into this code space.
    pub fn from_u16(n: u16) -> (r: Option<AssociationCode>)
        ensures
            r == AssociationCode::spec_from_u16(n),
    {
        match StandardAssociationCode::from_u16(n) {
            Some(c) => Some(AssociationCode::Standard(c)),
            None => {
                if n / 0x1000 == 0xC {
                    Some(AssociationCode::Vendor(n))
                } else if n / 0x1000 == 0x3 {
                    Some(AssociationCode::Reserved(n))
                } else {
                    None
                }
            },
        }
    }
}

/// Every wire value accepted by the AssociationCode classification round-trips:
/// converting the classified code back to a `u16` gives the original value.
pub proof fn lemma_association_code_round_trip(n: u16)
    requires
        AssociationCode::spec_from_u16(n) is Some,
    ensures
        AssociationCode::spec_from_u16(n)->Some_0.spec_to_u16() == n,
{
}

/// The wire value of every standard StandardAssociationCode classifies back to the
/// standard variant, never to a vendor or reserved one.
pub proof fn lemma_association_code_standard(c: StandardAssociationCode)
    ensures
        AssociationCode::spec_from_u16(c.spec_to_u16()) == Some(AssociationCode::Standard(c)),
{
}
/// The standard PTP storage access capabilities.
#[derive(Debug, Clone, Copy, PartialEq, Eq, Hash, Structural)]
pub enum StandardAccessType {
    ReadWrite,
    ReadOnlyNoDelete,
    ReadOnly,
}

impl StandardAccessType {
    /// The wire value of this standard code.
    pub open spec fn spec_to_u16(self) -> u16 {
        match self {
            StandardAccessType::ReadWrite => 0x0000,
            StandardAccessType::ReadOnlyNoDelete => 0x0001,
            StandardAccessType::ReadOnly => 0x0002,
        }
    }

    /// The standard code with the given wire value, if any.
    pub open spec fn spec_from_u16(n: u16) -> Option<StandardAccessType> {
        if n == 0x0000 {
            Some(StandardAccessType::ReadWrite)
        } else if n == 0x0001 {
            Some(StandardAccessType::ReadOnlyNoDelete)
        } else if n == 0x0002 {
            Some(StandardAccessType::ReadOnly)
        } else {
            None
        }
    }

    /// Recover the wire value of this standard code.
    pub fn to_u16(self) -> (r: u16)
        ensures
            r == self.spec_to_u16(),
    {
        match self {
            StandardAccessType::ReadWrite => 0x0000,
            StandardAccessType::ReadOnlyNoDelete => 0x0001,
            StandardAccessType::ReadOnly => 0x0002,
        }
    }

    /// Look up the standard code with the given wire value.
    pub fn from_u16(n: u16) -> (r: Option<StandardAccessType>)
        ensures
            r == StandardAccessType::spec_from_u16(n),
    {
        if n == 0x0000 {
            Some(StandardAccessType::ReadWrite)
        } else if n == 0x0001 {
            Some(StandardAccessType::ReadOnlyNoDelete)
        } else if n == 0x0002 {
            Some(StandardAccessType::ReadOnly)
        } else {
            None
        }
    }
}

/// A PTP access capability code.
#[derive(Debug, Clone, Copy, PartialEq, Eq, Hash, Structural)]
pub enum AccessType {
    Standard(StandardAccessType),
    Vendor(u16),
    Reserved(u16),
}

impl AccessType {
    /// The wire value of this code.
    pub open spec fn spec_to_u16(self) -> u16 {
        match self {
            AccessType::Standard(c) => c.spec_to_u16(),
            AccessType::Vendor(n) => n,
            AccessType::Reserved(n) => n,
        }
    }

    /// Classify a wire value: standard codes take precedence, vendor codes have bit 15 set,
    /// and any other value is reserved.
    pub open spec fn spec_from_u16(n: u16) -> Option<AccessType> {
        if StandardAccessType::spec_from_u16(n) is Some {
            Some(AccessType::Standard(StandardAccessType::spec_from_u16(n)->Some_0))
        } else if n >= 0x8000 {
            Some(AccessType::Vendor(n))
        } else {
            Some(AccessType::Reserved(n))
        }
    }

    /// Recover the wire value of this code.
    pub fn to_u16(self) -> (r: u16)
        ensures
            r == self.spec_to_u16(),
    {
        match self {
            AccessType::Standard(c) => c.to_u16(),
            AccessType::Vendor(n) => n,
            AccessType::Reserved(n) => n,
        }
    }

    /// Classify a wire value into this code space.
    pub fn from_u16(n: u16) -> (r: Option<AccessType>)
        ensures
            r == AccessType::spec_from_u16(n),
    {
        match StandardAccessType::from_u16(n) {
            Some(c) => Some(AccessType::Standard(c)),
            None => {
                if n >= 0x8000 {
                    Some(AccessType::Vendor(n))
                } else {
                    Some(AccessType::Reserved(n))
                }
            },
        }
    }
}

/// Every wire value accepted by the AccessType classification round-trips:
/// converting the classified code back to a `u16` gives the original value.
pub proof fn lemma_access_type_round_trip(n: u16)
    ensures
        AccessType::spec_from_u16(n) is Some,
        AccessType::spec_from_u16(n)->Some_0.spec_to_u16() == n,
{
}

/// The wire value of every standard StandardAccessType classifies back to the
/// standard variant, never to a vendor or reserved one.
pub proof fn lemma_access_type_standard(c: StandardAccessType)
    ensures
        AccessType::spec_from_u16(c.spec_to_u16()) == Some(AccessType::Standard(c)),
{
}
/// The standard PTP filesystem types.
#[derive(Debug, Clone, Copy, PartialEq, Eq, Hash, Structural)]
pub enum StandardFilesystemType {
    Undefined,
    GenericFlat,
    GenericHierarchical,
    DCF,
}

impl StandardFilesystemType {
    /// The wire value of this standard code.
    pub open spec fn spec_to_u16(self) -> u16 {
        match self {
            StandardFilesystemType::Undefined => 0x0000,
            StandardFilesystemType::GenericFlat => 0x0001,
            StandardFilesystemType::GenericHierarchical => 0x0002,
            StandardFilesystemType::DCF => 0x0003,
        }
    }

    /// The standard code with the given wire value, if any.
    pub open spec fn spec_from_u16(n: u16) -> Option<StandardFilesystemType> {
        if n == 0x0000 {
            Some(StandardFilesystemType::Undefined)
        } else if n == 0x0001 {
            Some(StandardFilesystemType::GenericFlat)
        } else if n == 0x0002 {
            Some(StandardFilesystemType::GenericHierarchical)
        } else if n == 0x0003 {
            Some(StandardFilesystemType::DCF)
        } else {
            None
        }
    }

    /// Recover the wire value of this standard code.
    pub fn to_u16(self) -> (r: u16)
        ensures
            r == self.spec_to_u16(),
    {
        match self {
            StandardFilesystemType::Undefined => 0x0000,
            StandardFilesystemType::GenericFlat => 0x0001,
            StandardFilesystemType::GenericHierarchical => 0x0002,
            StandardFilesystemType::DCF => 0x0003,
        }
    }

    /// Look up the standard code with the given wire value.
    pub fn from_u16(n: u16) -> (r: Option<StandardFilesystemType>)
        ensures
            r == StandardFilesystemType::spec_from_u16(n),
    {
        if n == 0x0000 {
            Some(StandardFilesystemType::Undefined)
        } else if n == 0x0001 {
            Some(StandardFilesystemType::GenericFlat)
        } else if n == 0x0002 {
            Some(StandardFilesystemType::GenericHierarchical)
        } else if n == 0x0003 {
            Some(StandardFilesystemType::DCF)
        } else {
            None
        }
    }
}

/// A PTP filesystem type code.
#[derive(Debug, Clone, Copy, PartialEq, Eq, Hash, Structural)]
pub enum FilesystemType {
    Standard(StandardFilesystemType),
    Vendor(u16),
    Reserved(u16),
}

impl FilesystemType {
    /// The wire value of this code.
    pub open spec fn spec_to_u16(self) -> u16 {
        match self {
            FilesystemType::Standard(c) => c.spec_to_u16(),
            FilesystemType::Vendor(n) => n,
            FilesystemType::Reserved(n) => n,
        }
    }

    /// Classify a wire value: standard codes take precedence, vendor codes have bit 15 set,
    /// and any other value is reserved.
    pub open spec fn spec_from_u16(n: u16) -> Option<FilesystemType> {
        if StandardFilesystemType::spec_from_u16(n) is Some {
            Some(FilesystemType::Standard(StandardFilesystemType::spec_from_u16(n)->Some_0))
        } else if n >= 0x8000 {
            Some(FilesystemType::Vendor(n))
        } else {
            Some(FilesystemType::Reserved(n))
        }
    }

    /// Recover the wire value of this code.
    pub fn to_u16(self) -> (r: u16)
        ensures
            r == self.spec_to_u16(),
    {
        match self {
            FilesystemType::Standard(c) => c.to_u16(),
            FilesystemType::Vendor(n) => n,
            FilesystemType::Reserved(n) => n,
        }
    }

    /// Classify a wire value into this code space.
    pub fn from_u16(n: u16) -> (r: Option<FilesystemType>)
        ensures
            r == FilesystemType::spec_from_u16(n),
    {
        match StandardFilesystemType::from_u16(n) {
            Some(c) => Some(FilesystemType::Standard(c)),
            None => {
                if n >= 0x8000 {
                    Some(FilesystemType::Vendor(n))
                } else {
                    Some(FilesystemType::Reserved(n))
                }
            },
        }
    }
}

/// Every wire value accepted by the FilesystemType classification round-trips:
/// converting the classified code back to a `u16` gives the original value.
pub proof fn lemma_filesystem_type_round_trip(n: u16)
    ensures
        FilesystemType::spec_from_u16(n) is Some,
        FilesystemType::spec_from_u16(n)->Some_0.spec_to_u16() == n,
{
}

/// The wire value of every standard StandardFilesystemType classifies back to the
/// standard variant, never to a vendor or reserved one.
pub proof fn lemma_filesystem_type_standard(c: StandardFilesystemType)
    ensures
        FilesystemType::spec_from_u16(c.spec_to_u16()) == Some(FilesystemType::Standard(c)),
{
}
/// The standard PTP storage types.
#[derive(Debug, Clone, Copy, PartialEq, Eq, Hash, Structural)]
pub enum StandardStorageType {
    Undefined,
    FixedRom,
    RemovableRom,
    FixedRam,
    RemovableRam,
}

impl StandardStorageType {
    /// The wire value of this standard code.
    pub open spec fn spec_to_u16(self) -> u16 {
        match self {
            StandardStorageType::Undefined => 0x0000,
            StandardStorageType::FixedRom => 0x0001,
            StandardStorageType::RemovableRom => 0x0002,
            StandardStorageType::FixedRam => 0x0003,
            StandardStorageType::RemovableRam => 0x0004,
        }
    }

    /// The standard code with the given wire value, if any.
    pub open spec fn spec_from_u16(n: u16) -> Option<StandardStorageType> {
        if n == 0x0000 {
            Some(StandardStorageType::Undefined)
        } else if n == 0x0001 {
            Some(StandardStorageType::FixedRom)
        } else if n == 0x0002 {
            Some(StandardStorageType::RemovableRom)
        } else if n == 0x0003 {
            Some(StandardStorageType::FixedRam)
        } else if n == 0x0004 {
            Some(StandardStorageType::RemovableRam)
        } else {
            None
        }
    }

    /// Recover the wire value of this standard code.
    pub fn to_u16(self) -> (r: u16)
        ensures
            r == self.spec_to_u16(),
    {
        match self {
            StandardStorageType::Undefined => 0x0000,
            StandardStorageType::FixedRom => 0x0001,
            StandardStorageType::RemovableRom => 0x0002,
            StandardStorageType::FixedRam => 0x0003,
            StandardStorageType::RemovableRam => 0x0004,
        }
    }

    /// Look up the standard code with the given wire value.
    pub fn from_u16(n: u16) -> (r: Option<StandardStorageType>)
        ensures
            r == StandardStorageType::spec_from_u16(n),
    {
        if n == 0x0000 {
            Some(StandardStorageType::Undefined)
        } else if n == 0x0001 {
            Some(StandardStorageType::FixedRom)
        } else if n == 0x0002 {
            Some(StandardStorageType::RemovableRom)
        } else if n == 0x0003 {
            Some(StandardStorageType::FixedRam)
        } else if n == 0x0004 {
            Some(StandardStorageType::RemovableRam)
        } else {
            None
        }
    }
}

/// A PTP storage type code.
#[derive(Debug, Clone, Copy, PartialEq, Eq, Hash, Structural)]
pub enum StorageType {
    Standard(StandardStorageType),
    Vendor(u16),
    Reserved(u16),
}

impl StorageType {
    /// The wire value of this code.
    pub open spec fn spec_to_u16(self) -> u16 {
        match self {
            StorageType::Standard(c) => c.spec_to_u16(),
            StorageType::Vendor(n) => n,
            StorageType::Reserved(n) => n,
        }
    }

    /// Classify a wire value: standard codes take precedence, vendor codes have bit 15 set,
    /// and any other value is reserved.
    pub open spec fn spec_from_u16(n: u16) -> Option<StorageType> {
        if StandardStorageType::spec_from_u16(n) is Some {
            Some(StorageType::Standard(StandardStorageType::spec_from_u16(n)->Some_0))
        } else if n >= 0x8000 {
            Some(StorageType::Vendor(n))
        } else {
            Some(StorageType::Reserved(n))
        }
    }

    /// Recover the wire value of this code.
    pub fn to_u16(self) -> (r: u16)
        ensures
            r == self.spec_to_u16(),
    {
        match self {
            StorageType::Standard(c) => c.to_u16(),
            StorageType::Vendor(n) => n,
            StorageType::Reserved(n) => n,
        }
    }

    /// Classify a wire value into this code space.
    pub fn from_u16(n: u16) -> (r: Option<StorageType>)
        ensures
            r == StorageType::spec_from_u16(n),
    {
        match StandardStorageType::from_u16(n) {
            Some(c) => Some(StorageType::Standard(c)),
            None => {
                if n >= 0x8000 {
                    Some(StorageType::Vendor(n))
                } else {
                    Some(StorageType::Reserved(n))
                }
            },
        }
    }
}

/// Every wire value accepted by the StorageType classification round-trips:
/// converting the classified code back to a `u16` gives the original value.
pub proof fn lemma_storage_type_round_trip(n: u16)
    ensures
        StorageType::spec_from_u16(n) is Some,
        StorageType::spec_from_u16(n)->Some_0.spec_to_u16() == n,
{
}

/// The wire value of every standard StandardStorageType classifies back to the
/// standard variant, never to a vendor or reserved one.
pub proof fn lemma_storage_type_standard(c: StandardStorageType)
    ensures
        StorageType::spec_from_u16(c.spec_to_u16()) == Some(StorageType::Standard(c)),
{
}

/// Which broad category a PTP object format falls in.
#[derive(Debug, Clone, Copy, PartialEq, Eq, Structural)]
pub enum ObjectFormatCategory {
    /// A non-image format (text, audio, video, folders, ...).
    Ancillary,
    /// An image format.
    Image,
    /// A vendor-defined or reserved format with no standard category.
    Unknown,
}

impl ObjectFormatCode {
    /// The category of this object format: standard non-image formats are
    /// ancillary, standard image formats (and the `ImageOnly` sentinel) are
    /// images, everything vendor-defined or reserved is unknown.
    pub open spec fn spec_category(self) -> ObjectFormatCategory {
        match self {
            ObjectFormatCode::Standard(c) => {
                if c.spec_to_u16() < 0x3800 {
                    ObjectFormatCategory::Ancillary
                } else {
                    ObjectFormatCategory::Image
                }
            },
            ObjectFormatCode::ImageOnly => ObjectFormatCategory::Image,
            ObjectFormatCode::Vendor(_) => ObjectFormatCategory::Unknown,
            ObjectFormatCode::Reserved(_) => ObjectFormatCategory::Unknown,
        }
    }

    /// Classify this object format as ancillary, image, or unknown.
    pub fn category(&self) -> (r: ObjectFormatCategory)
        ensures
            r == self.spec_category(),
    {
        match self {
            ObjectFormatCode::Standard(c) => {
                if c.to_u16() < 0x3800 {
                    ObjectFormatCategory::Ancillary
                } else {
                    ObjectFormatCategory::Image
                }
            },
            ObjectFormatCode::ImageOnly => ObjectFormatCategory::Image,
            ObjectFormatCode::Vendor(_) => ObjectFormatCategory::Unknown,
            ObjectFormatCode::Reserved(_) => ObjectFormatCategory::Unknown,
        }
    }
}

/// A 32-bit identifier of a stored object on the responder.
#[derive(Debug, Clone, Copy, PartialEq, Eq, PartialOrd, Ord, Hash, Structural)]
pub struct ObjectHandle(pub u32);

impl ObjectHandle {
    /// The handle that represents the "root" of a storage.
    pub fn root() -> (r: ObjectHandle)
        ensures
            r.0 == 0xFFFFFFFFu32,
    {
        ObjectHandle(0xFFFFFFFF)
    }
}

impl From<u32> for ObjectHandle {
    fn from(val: u32) -> (r: ObjectHandle) {
        ObjectHandle(val)
    }
}

impl vstd::std_specs::convert::FromSpecImpl<u32> for ObjectHandle {
    open spec fn obeys_from_spec() -> bool {
        true
    }

    open spec fn from_spec(val: u32) -> ObjectHandle {
        ObjectHandle(val)
    }
}

impl From<ObjectHandle> for u32 {
    fn from(val: ObjectHandle) -> (r: u32) {
        val.0
    }
}

impl vstd::std_specs::convert::FromSpecImpl<ObjectHandle> for u32 {
    open spec fn obeys_from_spec() -> bool {
        true
    }

    open spec fn from_spec(val: ObjectHandle) -> u32 {
        val.0
    }
}

/// A 32-bit identifier of a logical storage on the responder.
#[derive(Debug, Clone, Copy, PartialEq, Eq, PartialOrd, Ord, Hash, Structural)]
pub struct StorageId(pub u32);

impl StorageId {
    /// The id that represents all of the storages combined.
    pub fn all() -> (r: StorageId)
        ensures
            r.0 == 0xFFFFFFFFu32,
    {
        StorageId(0xFFFFFFFF)
    }
}

impl From<u32> for StorageId {
    fn from(val: u32) -> (r: StorageId) {
        StorageId(val)
    }
}

impl vstd::std_specs::convert::FromSpecImpl<u32> for StorageId {
    open spec fn obeys_from_spec() -> bool {
        true
    }

    open spec fn from_spec(val: u32) -> StorageId {
        StorageId(val)
    }
}

impl From<StorageId> for u32 {
    fn from(val: StorageId) -> (r: u32) {
        val.0
    }
}

impl vstd::std_specs::convert::FromSpecImpl<StorageId> for u32 {
    open spec fn obeys_from_spec() -> bool {
        true
    }

    open spec fn from_spec(val: StorageId) -> u32 {
        val.0
    }
}


impl StandardObjectFormatCode {
    /// The lowercase hexadecimal rendering of this code's wire value.
    pub fn hex_lower(&self) -> (r: String)
        ensures
            r@ == crate::hex::spec_hex_digits(self.spec_to_u16() as int),
    {
        crate::hex::hex_u16_lower(self.to_u16())
    }
}

impl ObjectFormatCode {
    /// The lowercase hexadecimal rendering of this code's wire value.
    pub fn hex_lower(&self) -> (r: String)
        ensures
            r@ == crate::hex::spec_hex_digits(self.spec_to_u16() as int),
    {
        crate::hex::hex_u16_lower(self.to_u16())
    }
}

impl StandardAssociationCode {
    /// The lowercase hexadecimal rendering of this code's wire value.
    pub fn hex_lower(&self) -> (r: String)
        ensures
            r@ == crate::hex::spec_hex_digits(self.spec_to_u16() as int),
    {
        crate::hex::hex_u16_lower(self.to_u16())
    }
}

impl AssociationCode {
    /// The lowercase hexadecimal rendering of this code's wire value.
    pub fn hex_lower(&self) -> (r: String)
        ensures
            r@ == crate::hex::spec_hex_digits(self.spec_to_u16() as int),
    {
        crate::hex::hex_u16_lower(self.to_u16())
    }
}

impl StandardAccessType {
    /// The lowercase hexadecimal rendering of this code's wire value.
    pub fn hex_lower(&self) -> (r: String)
        ensures
            r@ == crate::hex::spec_hex_digits(self.spec_to_u16() as int),
    {
        crate::hex::hex_u16_lower(self.to_u16())
    }
}

impl AccessType {
    /// The lowercase hexadecimal rendering of this code's wire value.
    pub fn hex_lower(&self) -> (r: String)
        ensures
            r@ == crate::hex::spec_hex_digits(self.spec_to_u16() as int),
    {
        crate::hex::hex_u16_lower(self.to_u16())
    }
}

impl StandardFilesystemType {
    /// The lowercase hexadecimal rendering of this code's wire value.
    pub fn hex_lower(&self) -> (r: String)
        ensures
            r@ == crate::hex::spec_hex_digits(self.spec_to_u16() as int),
    {
        crate::hex::hex_u16_lower(self.to_u16())
    }
}

impl FilesystemType {
    /// The lowercase hexadecimal rendering of this code's wire value.
    pub fn hex_lower(&self) -> (r: String)
        ensures
            r@ == crate::hex::spec_hex_digits(self.spec_to_u16() as int),
    {
        crate::hex::hex_u16_lower(self.to_u16())
    }
}

impl StandardStorageType {
    /// The lowercase hexadecimal rendering of this code's wire value.
    pub fn hex_lower(&self) -> (r: String)
        ensures
            r@ == crate::hex::spec_hex_digits(self.spec_to_u16() as int),
    {
        crate::hex::hex_u16_lower(self.to_u16())
    }
}

impl StorageType {
    /// The lowercase hexadecimal rendering of this code's wire value.
    pub fn hex_lower(&self) -> (r: String)
        ensures
            r@ == crate::hex::spec_hex_digits(self.spec_to_u16() as int),
    {
        crate::hex::hex_u16_lower(self.to_u16())
    }
}


impl ObjectHandle {
    /// This handle as `0x` followed by eight lowercase hexadecimal digits.
    pub fn display_string(&self) -> (r: String)
        ensures
            r@ == seq!['0', 'x'] + crate::hex::spec_hex8(self.0),
    {
        crate::hex::hex_u32_prefixed(self.0)
    }
}

impl StorageId {
    /// This id as `0x` followed by eight lowercase hexadecimal digits.
    pub fn display_string(&self) -> (r: String)
        ensures
            r@ == seq!['0', 'x'] + crate::hex::spec_hex8(self.0),
    {
        crate::hex::hex_u32_prefixed(self.0)
    }
}

} // verus!
