//! Addresses of the module's user-accessible nonvolatile memory.

use vstd::prelude::*;

verus! {

/// The lowest valid nonvolatile memory address.
pub const NVM_ADDRESS_MIN: u16 = 0x300;

/// The highest valid nonvolatile memory address.
pub const NVM_ADDRESS_MAX: u16 = 0x3FF;

/// An address in user-accessible nonvolatile memory. Guaranteed to be
/// between 0x300 and 0x3FF: invalid values are rejected at construction,
/// never silently clamped.
#[derive(Debug, Clone, Copy, PartialEq, Eq, PartialOrd, Ord)]
pub struct NvmAddress(u16);

impl NvmAddress {
    /// The address an `NvmAddress` holds.
    pub closed spec fn spec_inner(self) -> u16 {
        self.0
    }

    /// The range every `NvmAddress` lies in.
    #[verifier::type_invariant]
    pub open spec fn is_valid(self) -> bool {
        NVM_ADDRESS_MIN <= self.spec_inner() <= NVM_ADDRESS_MAX
    }

    /// Create a new `NvmAddress` from a `u16`. The given value must be
    /// between 0x300 and 0x3FF.
    pub fn new(value: u16) -> (r: NvmAddress)
        requires
            NVM_ADDRESS_MIN <= value <= NVM_ADDRESS_MAX,
        ensures
            r.spec_inner() == value,
            r.is_valid(),
    {
        NvmAddress(value)
    }

    /// Create a new `NvmAddress` from a `u16`, checking the range: the
    /// result is `Some` exactly when the value is between 0x300 and 0x3FF.
    pub fn try_new(value: u16) -> (r: Option<NvmAddress>)
        ensures
            r is Some <==> NVM_ADDRESS_MIN <= value <= NVM_ADDRESS_MAX,
            r matches Some(a) ==> a.spec_inner() == value && a.is_valid(),
    {
        if NVM_ADDRESS_MIN <= value && value <= NVM_ADDRESS_MAX {
            Some(NvmAddress(value))
        } else {
            None
        }
    }

    /// Return the address to which this `NvmAddress` refers. Guaranteed to
    /// be between 0x300 and 0x3FF.
    pub fn inner(self) -> (r: u16)
        ensures
            r == self.spec_inner(),
            NVM_ADDRESS_MIN <= r <= NVM_ADDRESS_MAX,
    {
        proof {
            use_type_invariant(&self);
        }
        self.0
    }
}

} // verus!
