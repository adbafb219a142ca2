//! The host name as the platform holds it.

use vstd::prelude::*;

verus! {

/// A host name in the platform's own encoding. Nothing is promised of the
/// units: they need not be valid text.
#[derive(Clone, Debug, PartialEq, Eq)]
pub enum HostnameValue {
    /// Bytes, as POSIX systems hold the name.
    Bytes(Vec<u8>),
    /// UTF-16 code units, as Windows holds the name.
    Wide(Vec<u16>),
}

/// The mathematical value of a [`HostnameValue`].
pub enum NameUnits {
    Bytes(Seq<u8>),
    Wide(Seq<u16>),
}

impl NameUnits {
    /// The number of units in the name.
    pub open spec fn len(self) -> nat {
        match self {
            NameUnits::Bytes(bytes) => bytes.len(),
            NameUnits::Wide(units) => units.len(),
        }
    }
}

impl View for HostnameValue {
    type V = NameUnits;

    open spec fn view(&self) -> NameUnits {
        match self {
            HostnameValue::Bytes(bytes) => NameUnits::Bytes(bytes@),
            HostnameValue::Wide(units) => NameUnits::Wide(units@),
        }
    }
}

impl HostnameValue {
    /// The number of units in the name.
    pub fn len(&self) -> (len: usize)
        ensures
            len == self@.len(),
    {
        match self {
            HostnameValue::Bytes(bytes) => bytes.len(),
            HostnameValue::Wide(units) => units.len(),
        }
    }
}

} // verus!
