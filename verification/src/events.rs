//! What an operation announces to observers once it has taken effect.

use vstd::prelude::*;
use crate::identity::Identity;
use crate::ledger::Action;

verus! {

/// What a successful operation hands back: the movements of funds that the
/// host is to carry out, in order, and then the event to announce.
#[derive(Debug, PartialEq, Eq)]
pub struct Outcome<E> {
    pub actions: Vec<Action>,
    pub event: E,
}

/// An order was created.
#[derive(Debug, PartialEq, Eq)]
pub struct EscrowCreated {
    pub order_id: String,
}

/// An order was released to its buyer.
#[derive(Debug, PartialEq, Eq)]
pub struct Released {
    pub order_id: String,
}

/// The buyer confirmed payment: the seller can no longer cancel.
#[derive(Debug, PartialEq, Eq)]
pub struct SellerCancelDisabled {
    pub order_id: String,
}

/// The buyer cancelled an order.
#[derive(Debug, PartialEq, Eq)]
pub struct CancelledByBuyer {
    pub order_id: String,
}

/// The seller cancelled an order.
#[derive(Debug, PartialEq, Eq)]
pub struct CancelledBySeller {
    pub order_id: String,
}

/// A party to an order opened a dispute.
#[derive(Debug, PartialEq, Eq)]
pub struct DisputeOpened {
    pub order_id: String,
    pub sender: Identity,
}

/// The arbitrator resolved a dispute for `winner`.
#[derive(Debug, PartialEq, Eq)]
pub struct DisputeResolved {
    pub order_id: String,
    pub winner: Identity,
}

} // verus!
