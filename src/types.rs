//! Plain value types shared by the whole ledger.

use vstd::prelude::*;

verus! {

/// A 160-bit account or asset identity, held as its upper 128 bits and its
/// lower 32 bits.  The all-zero address is the "unset" sentinel: as a
/// beneficiary it marks an open job, as an asset it names the native currency.
#[derive(Clone, Copy, Debug, PartialEq, Eq, Structural)]
pub struct Address {
    pub high: u128,
    pub low: u32,
}

impl Address {
    pub open spec fn spec_is_zero(&self) -> bool {
        self.high == 0 && self.low == 0
    }

    pub open spec fn spec_zero() -> Address {
        Address { high: 0, low: 0 }
    }

    /// The all-zero sentinel address.
    #[verifier::when_used_as_spec(spec_zero)]
    pub fn zero() -> (r: Address)
        ensures
            r == Address::spec_zero(),
            r.spec_is_zero(),
    {
        Address { high: 0, low: 0 }
    }

    pub fn new(high: u128, low: u32) -> (r: Address)
        ensures
            r.high == high,
            r.low == low,
    {
        Address { high, low }
    }

    #[verifier::when_used_as_spec(spec_is_zero)]
    pub fn is_zero(&self) -> (r: bool)
        ensures
            r == self.spec_is_zero(),
    {
        self.high == 0 && self.low == 0
    }
}

/// Escrow-level state.  `Released`, `Refunded` and `Expired` are terminal.
#[derive(Clone, Copy, Debug, PartialEq, Eq, Structural)]
pub enum EscrowStatus {
    Pending,
    InProgress,
    Released,
    Refunded,
    Disputed,
    Expired,
}

impl EscrowStatus {
    pub open spec fn spec_is_terminal(&self) -> bool {
        *self is Released || *self is Refunded || *self is Expired
    }

    #[verifier::when_used_as_spec(spec_is_terminal)]
    pub fn is_terminal(&self) -> (r: bool)
        ensures
            r == self.spec_is_terminal(),
    {
        match self {
            EscrowStatus::Released | EscrowStatus::Refunded | EscrowStatus::Expired => true,
            _ => false,
        }
    }
}

/// Milestone-level state.
#[derive(Clone, Copy, Debug, PartialEq, Eq, Structural)]
pub enum MilestoneStatus {
    NotStarted,
    Submitted,
    Approved,
    Disputed,
    Resolved,
    Rejected,
}

} // verus!
