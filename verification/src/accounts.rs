//! What each operation is handed: the records it works on and, of the
//! accounts that come with them, what it reads.

use vstd::prelude::*;
use crate::identity::Identity;
use crate::records::{Escrow, EscrowState};

verus! {

/// A token holding as an operation sees it: whether it has yet to be created.
#[derive(Clone, Copy, Debug, PartialEq, Eq)]
pub struct HoldingAccount {
    pub is_empty: bool,
}

/// For `initialize`: the registry to configure and the three parties it names.
#[derive(Clone, Copy, Debug, PartialEq, Eq)]
pub struct Initialize {
    pub escrow_state: EscrowState,
    pub seller: Identity,
    pub arbitrator: Identity,
    pub fee_recipient: Identity,
}

/// For `create_escrow_sol`: the registry, the order's record and the parties.
#[derive(Clone, Copy, Debug, PartialEq, Eq)]
pub struct CreateEscrowSOL {
    pub escrow_state: EscrowState,
    pub escrow: Escrow,
    pub seller: Identity,
    pub buyer: Identity,
    pub partner: Identity,
}

/// For `create_escrow_sol_buyer`: the registry, the order's record and the parties.
#[derive(Clone, Copy, Debug, PartialEq, Eq)]
pub struct CreateEscrowSOLBuyer {
    pub escrow_state: EscrowState,
    pub escrow: Escrow,
    pub seller: Identity,
    pub buyer: Identity,
    pub partner: Identity,
}

/// For `create_escrow_token`: as for a native order, with the token holdings
/// of the order and, where it was handed over, of the pool.
#[derive(Clone, Copy, Debug, PartialEq, Eq)]
pub struct CreateEscrowToken {
    pub escrow_state: EscrowState,
    pub escrow: Escrow,
    pub seller: Identity,
    pub buyer: Identity,
    pub partner: Identity,
    pub escrow_token_account: HoldingAccount,
    pub escrow_state_token_account: Option<HoldingAccount>,
}

/// For `create_escrow_token_buyer`: as for `create_escrow_token`.
#[derive(Clone, Copy, Debug, PartialEq, Eq)]
pub struct CreateEscrowTokenBuyer {
    pub escrow_state: EscrowState,
    pub escrow: Escrow,
    pub seller: Identity,
    pub buyer: Identity,
    pub partner: Identity,
    pub escrow_token_account: HoldingAccount,
    pub escrow_state_token_account: Option<HoldingAccount>,
}

/// For `mark_as_paid`: the order.
#[derive(Clone, Copy, Debug, PartialEq, Eq)]
pub struct MarkAsPaid {
    pub escrow: Escrow,
}

/// For `release_funds`: registry, order, the parties, and the token holdings
/// that were handed over.
#[derive(Clone, Copy, Debug, PartialEq, Eq)]
pub struct ReleaseFunds {
    /// The address of the program, from which the order's authority derives.
    pub program_id: Identity,
    pub escrow_state: EscrowState,
    pub escrow: Escrow,
    pub seller: Identity,
    pub buyer: Identity,
    pub fee_recipient: Identity,
    pub fee_recipient_token_account: Option<HoldingAccount>,
    pub escrow_token_account: Option<HoldingAccount>,
    pub buyer_token_account: Option<HoldingAccount>,
}

/// For `buyer_cancel` and `seller_cancel`: registry, order and seller.
#[derive(Clone, Copy, Debug, PartialEq, Eq)]
pub struct CancelEscrow {
    pub escrow_state: EscrowState,
    pub escrow: Escrow,
    pub seller: Identity,
}

/// For `open_dispute`: registry, order and the party that opens the dispute.
#[derive(Clone, Copy, Debug, PartialEq, Eq)]
pub struct OpenDispute {
    pub escrow_state: EscrowState,
    pub escrow: Escrow,
    pub payer: Identity,
    /// The payer's spendable native balance.
    pub payer_lamports: u64,
}

/// For `resolve_dispute`: registry, order, the arbitrator who asks, and the
/// buyer and seller whose accounts are handed over to be paid.
#[derive(Clone, Copy, Debug, PartialEq, Eq)]
pub struct ResolveDispute {
    pub escrow_state: EscrowState,
    pub escrow: Escrow,
    pub arbitrator: Identity,
    pub seller: Identity,
    pub buyer: Identity,
}

/// For `deposit_to_escrow`: registry with the balance of its pool, order,
/// seller, and the mint and token holdings that were handed over.
#[derive(Clone, Copy, Debug, PartialEq, Eq)]
pub struct DepositToEscrow {
    pub escrow_state: EscrowState,
    /// The native balance of the registry's custody.
    pub escrow_state_lamports: u64,
    pub escrow: Escrow,
    pub seller: Identity,
    pub mint_account: Option<Identity>,
    pub escrow_state_token_account: Option<HoldingAccount>,
    pub seller_token_account: Option<HoldingAccount>,
    pub escrow_token_account: Option<HoldingAccount>,
}

/// For `deposit_to_escrow_state`: registry, seller and the pool's token
/// holding.
#[derive(Clone, Copy, Debug, PartialEq, Eq)]
pub struct DepositToEscrowState {
    pub escrow_state: EscrowState,
    pub seller: Identity,
    /// The seller's spendable native balance.
    pub seller_lamports: u64,
    pub escrow_state_token_account: HoldingAccount,
}

/// For `withdraw_balance`: registry and seller.
#[derive(Clone, Copy, Debug, PartialEq, Eq)]
pub struct WithdrawBalance {
    pub escrow_state: EscrowState,
    pub seller: Identity,
}

} // verus!
