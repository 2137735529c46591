//! Actor identities, the runtime's notion of a contract or user address.

use vstd::prelude::*;

verus! {

/// Identity of an actor (a user, a token contract, the factory, ...).
///
/// The runtime addresses actors by opaque identifiers; the logic only ever
/// compares them for equality, tests for the reserved zero identity and
/// orders token identities canonically, so a single integer carries
/// everything the contract reads from an address.
#[derive(Clone, Copy, PartialEq, Eq, Structural, Debug)]
pub struct ActorId {
    pub value: u64,
}

impl ActorId {
    /// The reserved zero identity: liquidity locked forever is minted to it,
    /// and a zero fee receiver disables the protocol fee.
    pub fn zero() -> (r: Self)
        ensures
            r.value == 0,
    {
        ActorId { value: 0 }
    }

    pub fn new(value: u64) -> (r: Self)
        ensures
            r.value == value,
    {
        ActorId { value }
    }

    pub fn is_zero(&self) -> (r: bool)
        ensures
            r == (self.value == 0),
    {
        self.value == 0
    }
}

} // verus!
