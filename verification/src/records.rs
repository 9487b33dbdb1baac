//! The two durable records: a seller's registry and an order.

use vstd::prelude::*;
use crate::identity::Identity;

verus! {

/// A seller's registry: fee policy, trusted third parties and the custody of
/// the seller's pooled balance.
#[derive(Clone, Copy, Debug, PartialEq, Eq)]
pub struct EscrowState {
    pub is_initialized: bool,
    pub seller: Identity,
    pub fee_bps: u64,
    pub arbitrator: Identity,
    pub fee_recipient: Identity,
    pub fee_discount_nft: Identity,
    pub dispute_fee: u64,
    pub deployer: Identity,
}

/// One trade: its terms, its custody state and its dispute bookkeeping.
#[derive(Clone, Copy, Debug, PartialEq, Eq)]
pub struct Escrow {
    pub exists: bool,
    pub seller_can_cancel_after: i64,
    pub fee: u64,
    pub dispute: bool,
    pub partner: Identity,
    pub open_peer_fee: u64,
    pub automatic_escrow: bool,
    pub amount: u64,
    pub token: Identity,
    pub seller: Identity,
    pub buyer: Identity,
    pub seller_paid_dispute: bool,
    pub buyer_paid_dispute: bool,
}

impl Escrow {
    /// The buyer has confirmed payment; the seller can no longer cancel.
    pub open spec fn payment_confirmed(self) -> bool {
        self.seller_can_cancel_after == 1
    }

    /// The seller may cancel at time `now`: payment is unconfirmed and the
    /// waiting time has passed.
    pub open spec fn seller_may_cancel(self, now: i64) -> bool {
        self.seller_can_cancel_after > 1 && self.seller_can_cancel_after <= now
    }

    /// Principal and trade fee together: what an order's custody holds.
    pub open spec fn total(self) -> int {
        self.amount + self.fee
    }

    /// What holds of every order in progress.
    pub open spec fn well_formed(self) -> bool {
        self.exists ==> self.amount > 0 && self.buyer != self.seller
    }

    /// This record once settled: nothing changes but `exists`.
    pub open spec fn settled(self) -> Escrow {
        Escrow { exists: false, ..self }
    }
}

} // verus!
