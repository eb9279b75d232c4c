//! A validated virtual address: a machine word known to be non-zero.
//!
//! Fault-address registers use zero as their own "no address recorded"
//! sentinel, so a recorded address is represented by a wrapper whose
//! invariant rules zero out.

use vstd::prelude::*;

verus! {

/// A virtual address that is guaranteed to be non-zero.
pub struct Virtual {
    address: usize,
}

impl Virtual {
    /// The wrapped address.
    pub closed spec fn spec_get(self) -> usize {
        self.address
    }

    #[verifier::type_invariant]
    spec fn inv(self) -> bool {
        self.address != 0
    }

    /// Wrap an address, refusing the zero sentinel.
    pub fn new(address: usize) -> (r: Option<Virtual>)
        ensures
            r is Some <==> address != 0,
            r matches Some(v) ==> v.spec_get() == address,
    {
        if address == 0 {
            None
        } else {
            Some(Virtual { address })
        }
    }

    /// The wrapped address, always non-zero.
    pub fn get(self) -> (r: usize)
        ensures
            r == self.spec_get(),
            r != 0,
    {
        proof {
            use_type_invariant(&self);
        }
        self.address
    }
}

} // verus!
