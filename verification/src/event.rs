//! PTP event codes and their classification.

use vstd::prelude::*;

use crate::error::Error;

verus! {

/// The standard PTP event codes.
#[derive(Debug, Clone, Copy, PartialEq, Eq, Hash, Structural)]
pub enum StandardEventCode {
    Undefined,
    CancelTransaction,
    ObjectAdded,
    ObjectRemoved,
    StoreAdded,
    StoreRemoved,
    DevicePropChanged,
    ObjectInfoChanged,
    StoreFull,
    DeviceReset,
    StorageInfoChanged,
    CaptureComplete,
    UnreportedStatus,
}

impl StandardEventCode {
    /// The wire value of this standard code.
    pub open spec fn spec_to_u16(self) -> u16 {
        match self {
            StandardEventCode::Undefined => 0x4000,
            StandardEventCode::CancelTransaction => 0x4001,
            StandardEventCode::ObjectAdded => 0x4002,
            StandardEventCode::ObjectRemoved => 0x4003,
            StandardEventCode::StoreAdded => 0x4004,
            StandardEventCode::StoreRemoved => 0x4005,
            StandardEventCode::DevicePropChanged => 0x4006,
            StandardEventCode::ObjectInfoChanged => 0x4007,
            StandardEventCode::StoreFull => 0x4008,
            StandardEventCode::DeviceReset => 0x4009,
            StandardEventCode::StorageInfoChanged => 0x400A,
            StandardEventCode::CaptureComplete => 0x400B,
            StandardEventCode::UnreportedStatus => 0x400C,
        }
    }

    /// The standard code with the given wire value, if any.
    pub open spec fn spec_from_u16(n: u16) -> Option<StandardEventCode> {
        if n == 0x4000 {
            Some(StandardEventCode::Undefined)
        } else if n == 0x4001 {
            Some(StandardEventCode::CancelTransaction)
        } else if n == 0x4002 {
            Some(StandardEventCode::ObjectAdded)
        } else if n == 0x4003 {
            Some(StandardEventCode::ObjectRemoved)
        } else if n == 0x4004 {
            Some(StandardEventCode::StoreAdded)
        } else if n == 0x4005 {
            Some(StandardEventCode::StoreRemoved)
        } else if n == 0x4006 {
            Some(StandardEventCode::DevicePropChanged)
        } else if n == 0x4007 {
            Some(StandardEventCode::ObjectInfoChanged)
        } else if n == 0x4008 {
            Some(StandardEventCode::StoreFull)
        } else if n == 0x4009 {
            Some(StandardEventCode::DeviceReset)
        } else if n == 0x400A {
            Some(StandardEventCode::StorageInfoChanged)
        } else if n == 0x400B {
            Some(StandardEventCode::CaptureComplete)
        } else if n == 0x400C {
            Some(StandardEventCode::UnreportedStatus)
        } else {
            None
        }
    }

    /// Recover the wire value of this standard code.
    pub fn to_u16(self) -> (r: u16)
        ensures
            r == self.spec_to_u16(),
    {
        match self {
            StandardEventCode::Undefined => 0x4000,
            StandardEventCode::CancelTransaction => 0x4001,
            StandardEventCode::ObjectAdded => 0x4002,
            StandardEventCode::ObjectRemoved => 0x4003,
            StandardEventCode::StoreAdded => 0x4004,
            StandardEventCode::StoreRemoved => 0x4005,
            StandardEventCode::DevicePropChanged => 0x4006,
            StandardEventCode::ObjectInfoChanged => 0x4007,
            StandardEventCode::StoreFull => 0x4008,
            StandardEventCode::DeviceReset => 0x4009,
            StandardEventCode::StorageInfoChanged => 0x400A,
            StandardEventCode::CaptureComplete => 0x400B,
            StandardEventCode::UnreportedStatus => 0x400C,
        }
    }

    /// Look up the standard code with the given wire value.
    pub fn from_u16(n: u16) -> (r: Option<StandardEventCode>)
        ensures
            r == StandardEventCode::spec_from_u16(n),
    {
        if n == 0x4000 {
            Some(StandardEventCode::Undefined)
        } else if n == 0x4001 {
            Some(StandardEventCode::CancelTransaction)
        } else if n == 0x4002 {
            Some(StandardEventCode::ObjectAdded)
        } else if n == 0x4003 {
            Some(StandardEventCode::ObjectRemoved)
        } else if n == 0x4004 {
            Some(StandardEventCode::StoreAdded)
        } else if n == 0x4005 {
            Some(StandardEventCode::StoreRemoved)
        } else if n == 0x4006 {
            Some(StandardEventCode::DevicePropChanged)
        } else if n == 0x4007 {
            Some(StandardEventCode::ObjectInfoChanged)
        } else if n == 0x4008 {
            Some(StandardEventCode::StoreFull)
        } else if n == 0x4009 {
            Some(StandardEventCode::DeviceReset)
        } else if n == 0x400A {
            Some(StandardEventCode::StorageInfoChanged)
        } else if n == 0x400B {
            Some(StandardEventCode::CaptureComplete)
        } else if n == 0x400C {
            Some(StandardEventCode::UnreportedStatus)
        } else {
            None
        }
    }
}

/// A PTP event code: standard, vendor-defined, or reserved.
#[derive(Debug, Clone, Copy, PartialEq, Eq, Hash, Structural)]
pub enum EventCode {
    Standard(StandardEventCode),
    Vendor(u16),
    Reserved(u16),
}

impl EventCode {
    /// The wire value of this code.
    pub open spec fn spec_to_u16(self) -> u16 {
        match self {
            EventCode::Standard(c) => c.spec_to_u16(),
            EventCode::Vendor(n) => n,
            EventCode::Reserved(n) => n,
        }
    }

    /// Classify a wire value: standard codes take precedence, vendor codes have most-significant nibble 0xC,
    /// and reserved codes have most-significant nibble 0x4.
    pub open spec fn spec_from_u16(n: u16) -> Option<EventCode> {
        if StandardEventCode::spec_from_u16(n) is Some {
            Some(EventCode::Standard(StandardEventCode::spec_from_u16(n)->Some_0))
        } else if n / 0x1000 == 0xC {
            Some(EventCode::Vendor(n))
        } else if n / 0x1000 == 0x4 {
            Some(EventCode::Reserved(n))
        } else {
            None
        }
    }

    /// Recover the wire value of this code.
    pub fn to_u16(self) -> (r: u16)
        ensures
            r == self.spec_to_u16(),
    {
        match self {
            EventCode::Standard(c) => c.to_u16(),
            EventCode::Vendor(n) => n,
            EventCode::Reserved(n) => n,
        }
    }

    /// Classify a wire value into this code space.
    pub fn from_u16(n: u16) -> (r: Option<EventCode>)
        ensures
            r == EventCode::spec_from_u16(n),
    {
        match StandardEventCode::from_u16(n) {
            Some(c) => Some(EventCode::Standard(c)),
            None => {
                if n / 0x1000 == 0xC {
                    Some(EventCode::Vendor(n))
                } else if n / 0x1000 == 0x4 {
                    Some(EventCode::Reserved(n))
                } else {
                    None
                }
            },
        }
    }
}

/// Every wire value accepted by the EventCode classification round-trips:
/// converting the classified code back to a `u16` gives the original value.
pub proof fn lemma_event_code_round_trip(n: u16)
    requires
        EventCode::spec_from_u16(n) is Some,
    ensures
        EventCode::spec_from_u16(n)->Some_0.spec_to_u16() == n,
{
}

/// The wire value of every standard StandardEventCode classifies back to the
/// standard variant, never to a vendor or reserved one.
pub proof fn lemma_event_code_standard(c: StandardEventCode)
    ensures
        EventCode::spec_from_u16(c.spec_to_u16()) == Some(EventCode::Standard(c)),
{
}

impl From<StandardEventCode> for EventCode {
    fn from(code: StandardEventCode) -> (r: EventCode) {
        EventCode::Standard(code)
    }
}

impl vstd::std_specs::convert::FromSpecImpl<StandardEventCode> for EventCode {
    open spec fn obeys_from_spec() -> bool {
        true
    }

    open spec fn from_spec(code: StandardEventCode) -> EventCode {
        EventCode::Standard(code)
    }
}

/// The big-endian `u32` whose bytes start at `i`.
pub open spec fn u32_be_at(b: Seq<u8>, i: int) -> u32 {
    (b[i] * 0x1000000 + b[i + 1] * 0x10000 + b[i + 2] * 0x100 + b[i + 3]) as u32
}

/// The parameters carried by an event payload: each aligned group of four
/// bytes is one big-endian `u32`; a trailing partial group is dropped.
pub open spec fn event_params(b: Seq<u8>) -> Seq<u32> {
    Seq::new((b.len() / 4) as nat, |k: int| u32_be_at(b, 4 * k))
}

/// An asynchronous event from the responder: its classified code and its
/// `u32` parameters.
#[derive(Debug, Clone)]
pub struct Event {
    pub code: EventCode,
    pub params: Vec<u32>,
}

impl Event {
    /// Build an event from a raw event code and its payload bytes.  Fails
    /// with `BadEventCode` exactly when the code classifies to none of the
    /// standard, vendor, or reserved partitions.
    pub fn new(code: u16, params: &[u8]) -> (r: Result<Event, Error>)
        ensures
            match r {
                Ok(ev) => EventCode::spec_from_u16(code) == Some(ev.code) && ev.params@
                    == event_params(params@),
                Err(e) => EventCode::spec_from_u16(code) is None && e == Error::BadEventCode,
            },
    {
        let code = match EventCode::from_u16(code) {
            Some(c) => c,
            None => {
                return Err(Error::BadEventCode);
            },
        };
        let plen = params.len();
        let n = plen / 4;
        let mut out: Vec<u32> = Vec::new();
        let mut k: usize = 0;
        while k < n
            invariant
                plen == params@.len(),
                n == params@.len() as int / 4,
                0 <= k <= n,
                out@.len() == k,
                forall|j: int| 0 <= j < k ==> out@[j] == u32_be_at(params@, 4 * j),
            decreases n - k,
        {
            proof {
                assert(4 * (k as int) + 3 < plen as int) by {
                    assert(k as int <= n - 1);
                    assert(4 * (n as int) <= plen as int);
                }
            }
            let b0 = params[4 * k];
            let b1 = params[4 * k + 1];
            let b2 = params[4 * k + 2];
            let b3 = params[4 * k + 3];
            let v = (b0 as u32) * 0x1000000 + (b1 as u32) * 0x10000 + (b2 as u32) * 0x100 + (b3
                as u32);
            out.push(v);
            k = k + 1;
        }
        proof {
            assert(out@ =~= event_params(params@));
        }
        Ok(Event { code, params: out })
    }
}


impl StandardEventCode {
    /// The lowercase hexadecimal rendering of this code's wire value.
    pub fn hex_lower(&self) -> (r: String)
        ensures
            r@ == crate::hex::spec_hex_digits(self.spec_to_u16() as int),
    {
        crate::hex::hex_u16_lower(self.to_u16())
    }
}

impl EventCode {
    /// The lowercase hexadecimal rendering of this code's wire value.
    pub fn hex_lower(&self) -> (r: String)
        ensures
            r@ == crate::hex::spec_hex_digits(self.spec_to_u16() as int),
    {
        crate::hex::hex_u16_lower(self.to_u16())
    }
}

} // verus!
