//! Plain-value models of the host's scalar types and of the handles that the
//! layer passes through without looking inside.

use vstd::prelude::*;

verus! {

pub type Oid = u32;

pub type TransactionId = u32;

pub type CommandId = u32;

pub type BlockNumber = u32;

pub type OffsetNumber = u16;

pub type Buffer = i32;

pub type Index = u32;

pub type bits32 = u32;

/// The address of a host-owned object. The layer borrows it for the length of
/// one call and never reads through it; address zero is the null handle.
#[derive(Clone, Copy, Debug, PartialEq, Eq, Structural)]
pub struct Handle {
    pub addr: u64,
}

impl Handle {
    pub open spec fn spec_is_null(self) -> bool {
        self.addr == 0
    }

    /// The null handle.
    pub fn null() -> (h: Handle)
        ensures
            h.addr == 0,
            h.is_null(),
    {
        Handle { addr: 0 }
    }

    /// A handle on the object at `addr`.
    pub fn at(addr: u64) -> (h: Handle)
        ensures
            h.addr == addr,
    {
        Handle { addr }
    }

    /// Whether this is the null handle.
    #[verifier::when_used_as_spec(spec_is_null)]
    pub fn is_null(self) -> (b: bool)
        ensures
            b == (self.addr == 0),
    {
        self.addr == 0
    }
}

} // verus!
