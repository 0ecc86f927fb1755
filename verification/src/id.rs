//! NetworkID newtype: a globally unique identifier for a game object.
use vstd::prelude::*;

verus! {

/// Globally unique identifier for a game object (a 64-bit network id).
#[derive(Debug, Clone, Copy, PartialEq, Eq, Hash, Structural)]
pub struct NetworkID(u64);

impl NetworkID {
    /// The id's numeric value.
    pub closed spec fn value(self) -> u64 {
        self.0
    }

    /// The null id (no object).
    pub fn null() -> (r: NetworkID)
        ensures
            r.value() == 0,
    {
        NetworkID(0)
    }

    pub fn new(id: u64) -> (r: NetworkID)
        ensures
            r.value() == id,
    {
        NetworkID(id)
    }

    pub fn as_u64(self) -> (r: u64)
        ensures
            r == self.value(),
    {
        self.0
    }

    pub fn is_null(self) -> (r: bool)
        ensures
            r == (self.value() == 0),
    {
        self.0 == 0
    }

    /// Decimal rendering, as the id prints.
    pub fn to_display_string(self) -> (s: String)
        ensures
            s@ == crate::text::decimal(self.value() as nat),
    {
        crate::text::decimal_string(self.0)
    }

    /// Two ids are the same object exactly when their values are equal.
    pub proof fn lemma_value_injective(a: NetworkID, b: NetworkID)
        ensures
            a.value() == b.value() <==> a == b,
    {
    }
}

impl From<u64> for NetworkID {
    fn from(id: u64) -> (r: NetworkID)
        ensures
            r.value() == id,
    {
        NetworkID(id)
    }
}

impl vstd::std_specs::convert::FromSpecImpl<u64> for NetworkID {
    open spec fn obeys_from_spec() -> bool {
        true
    }

    closed spec fn from_spec(v: u64) -> NetworkID {
        NetworkID(v)
    }
}

impl From<NetworkID> for u64 {
    fn from(id: NetworkID) -> (r: u64)
        ensures
            r == id.value(),
    {
        id.0
    }
}

impl vstd::std_specs::convert::FromSpecImpl<NetworkID> for u64 {
    open spec fn obeys_from_spec() -> bool {
        true
    }

    closed spec fn from_spec(v: NetworkID) -> u64 {
        v.0
    }
}

impl Default for NetworkID {
    fn default() -> (r: NetworkID)
        ensures
            r.value() == 0,
    {
        NetworkID(0)
    }
}

} // verus!
