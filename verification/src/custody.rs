//! Moving funds between a user and the ledger.
//!
//! The ledger keeps the books; the funds themselves are moved by whoever
//! holds them in custody. For a deposit or a withdrawal the ledger first says
//! which transfer it needs, then hears how the transfer went, and only then
//! touches the balance.

use crate::identity::Identity;
use vstd::prelude::*;

verus! {

/// One end of a transfer.
#[derive(Clone, Copy, Debug, PartialEq, Eq)]
pub enum Holder {
    /// The funds that the user keeps outside the ledger.
    User(Identity),
    /// The funds that are kept in custody for the account of the user.
    Custody(Identity),
}

/// A transfer that the ledger asks for.
#[derive(Clone, Copy, Debug, PartialEq, Eq)]
pub struct Transfer {
    /// Where the funds are taken from.
    pub source: Holder,
    /// Where the funds are to arrive.
    pub destination: Holder,
    /// How much is to be moved, in the smallest currency unit.
    pub amount: u64,
}

impl Transfer {
    /// The transfer that brings `amount` from `user` into custody.
    pub open spec fn inward(user: Identity, amount: u64) -> Transfer {
        Transfer { source: Holder::User(user), destination: Holder::Custody(user), amount }
    }

    /// The transfer that gives `amount` back from custody to `user`.
    pub open spec fn outward(user: Identity, amount: u64) -> Transfer {
        Transfer { source: Holder::Custody(user), destination: Holder::User(user), amount }
    }
}

} // verus!
