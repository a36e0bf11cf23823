//! Raw object handles of the graphics API.

use vstd::prelude::*;

verus! {

/// The raw value of a device object handle. Zero is the null handle.
#[derive(Clone, Copy, Debug, PartialEq, Eq, Hash, Structural)]
pub struct Handle {
    pub raw: u64,
}

impl Handle {
    /// A handle with the given raw value.
    pub fn new(raw: u64) -> (h: Handle)
        ensures
            h.raw == raw,
    {
        Handle { raw }
    }

    /// The null handle.
    pub fn null() -> (h: Handle)
        ensures
            h.raw == 0,
            h.spec_is_null(),
    {
        Handle { raw: 0 }
    }

    /// Whether a handle is the null handle.
    pub open spec fn spec_is_null(self) -> bool {
        self.raw == 0
    }

    /// Whether this is the null handle.
    #[verifier::when_used_as_spec(spec_is_null)]
    pub fn is_null(self) -> (b: bool)
        ensures
            b == self.spec_is_null(),
    {
        self.raw == 0
    }

    /// The raw value.
    pub fn as_raw(self) -> (raw: u64)
        ensures
            raw == self.raw,
    {
        self.raw
    }
}

impl Default for Handle {
    fn default() -> (h: Handle)
        ensures
            h.raw == 0,
    {
        Handle { raw: 0 }
    }
}

} // verus!
