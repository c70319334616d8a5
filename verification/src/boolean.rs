use crate::error::BridgeError;
use vstd::prelude::*;

verus! {

/// Raw representation of the foreign runtime's boolean type.
///
/// The runtime defines two distinct sentinel values; nothing else is a legal
/// boolean, and no caller may assume a particular bit pattern beyond the two
/// named constants below.
pub type RawBool = i8;

/// The foreign runtime's sentinel for logical truth.
pub const YES: RawBool = 1;

/// The foreign runtime's sentinel for logical falsehood.
pub const NO: RawBool = 0;

/// A host-side boolean, marshaled from and to the foreign runtime's two
/// sentinel values.
#[derive(Clone, Copy, Debug, PartialEq, Eq, Structural, Hash)]
pub struct Boolean(pub bool);

/// The raw sentinel a host boolean marshals to. Total: both host values have
/// a sentinel.
pub open spec fn spec_marshal(value: bool) -> RawBool {
    if value {
        YES
    } else {
        NO
    }
}

/// How a raw foreign boolean unmarshals: either sentinel maps to the
/// corresponding host value; any other raw value is an `UnmarshalError`.
pub open spec fn spec_unmarshal(raw: RawBool) -> Result<Boolean, BridgeError> {
    if raw == YES {
        Ok(Boolean(true))
    } else if raw == NO {
        Ok(Boolean(false))
    } else {
        Err(BridgeError::UnmarshalError)
    }
}

impl Boolean {
    /// Wrap a host boolean.
    pub fn new(value: bool) -> (r: Self)
        ensures
            r.0 == value,
    {
        Boolean(value)
    }

    /// The host value.
    pub fn value(&self) -> (r: bool)
        ensures
            r == self.0,
    {
        self.0
    }

    /// Marshal to the foreign raw representation.
    pub fn id(self) -> (r: RawBool)
        ensures
            r == spec_marshal(self.0),
    {
        if self.0 {
            YES
        } else {
            NO
        }
    }

    /// Unmarshal a raw foreign boolean; fails on anything but the two
    /// sentinels.
    pub fn try_from_raw(raw: RawBool) -> (r: Result<Boolean, BridgeError>)
        ensures
            r == spec_unmarshal(raw),
    {
        if raw == YES {
            Ok(Boolean(true))
        } else if raw == NO {
            Ok(Boolean(false))
        } else {
            Err(BridgeError::UnmarshalError)
        }
    }

    /// Logical negation of the converted host value, not of the raw sentinel;
    /// the result must be re-marshaled before crossing back into the runtime.
    pub fn not(self) -> (r: Self)
        ensures
            r.0 == !self.0,
    {
        Boolean(!self.0)
    }
}

/// Marshaling either host boolean and unmarshaling the result returns the
/// original value.
pub proof fn lemma_boolean_round_trip(value: bool)
    ensures
        spec_unmarshal(spec_marshal(value)) == Ok::<Boolean, BridgeError>(Boolean(value)),
{
}

/// A raw value that matches neither sentinel never unmarshals.
pub proof fn lemma_unmarshal_rejects_unknown(raw: RawBool)
    requires
        raw != YES,
        raw != NO,
    ensures
        spec_unmarshal(raw) == Err::<Boolean, BridgeError>(BridgeError::UnmarshalError),
{
}

} // verus!
