//! A seller's registry: its one-time configuration and its pooled balance.

use vstd::prelude::*;
use crate::accounts::{DepositToEscrowState, Initialize, WithdrawBalance};
use crate::creation::{open_if_empty, with_holding};
use crate::error::SolanaErrorCode;
use crate::identity::Identity;
use crate::ledger::{Action, Authority, Party, Transfer};
use crate::records::EscrowState;

verus! {

/// The registry that `initialize` writes.
pub open spec fn initialized(
    ctx: Initialize,
    fee_bps: u64,
    dispute_fee: u64,
    fee_discount_nft: Identity,
) -> EscrowState {
    EscrowState {
        is_initialized: true,
        seller: ctx.seller,
        fee_bps,
        arbitrator: ctx.arbitrator,
        fee_recipient: ctx.fee_recipient,
        fee_discount_nft,
        dispute_fee,
        deployer: ctx.escrow_state.deployer,
    }
}

/// Configures a seller's registry, once. No funds move.
///
/// Refused with `AlreadyInitialized` the second time; the registry is then
/// left as it was.
pub fn initialize(
    ctx: &mut Initialize,
    fee_bps: u64,
    dispute_fee: u64,
    fee_discount_nft: Identity,
) -> (r: Result<(), SolanaErrorCode>)
    ensures
        match r {
            Ok(_) => {
                &&& !old(ctx).escrow_state.is_initialized
                &&& *final(ctx) == (Initialize {
                    escrow_state: initialized(*old(ctx), fee_bps, dispute_fee, fee_discount_nft),
                    ..*old(ctx)
                })
            },
            Err(e) => {
                &&& e == SolanaErrorCode::AlreadyInitialized
                &&& old(ctx).escrow_state.is_initialized
                &&& *final(ctx) == *old(ctx)
            },
        },
{
    if ctx.escrow_state.is_initialized {
        return Err(SolanaErrorCode::AlreadyInitialized);
    }
    ctx.escrow_state.is_initialized = true;
    ctx.escrow_state.seller = ctx.seller;
    ctx.escrow_state.fee_bps = fee_bps;
    ctx.escrow_state.arbitrator = ctx.arbitrator;
    ctx.escrow_state.fee_recipient = ctx.fee_recipient;
    ctx.escrow_state.fee_discount_nft = fee_discount_nft;
    ctx.escrow_state.dispute_fee = dispute_fee;
    Ok(())
}

/// What a deposit into the pool moves: the amount and, on top of it, the
/// registry's fee field taken as a flat sum.
pub open spec fn pool_deposit_total(ctx: DepositToEscrowState, amount: u64) -> int {
    amount + ctx.escrow_state.fee_bps
}

/// Why `deposit_to_escrow_state` refuses, if it does.
pub open spec fn deposit_to_escrow_state_error(
    ctx: DepositToEscrowState,
    amount: u64,
    token: Identity,
) -> Option<SolanaErrorCode> {
    if amount == 0 {
        Some(SolanaErrorCode::InvalidAmount)
    } else if token.is_native() && ctx.seller_lamports < pool_deposit_total(ctx, amount) {
        Some(SolanaErrorCode::InsufficientFunds)
    } else {
        None
    }
}

/// What `deposit_to_escrow_state` asks of the host: the total from the seller
/// into the pool; for a token the pool's holding is opened first where it is
/// missing, and the seller signs.
pub open spec fn deposit_to_escrow_state_actions(
    ctx: DepositToEscrowState,
    amount: u64,
    token: Identity,
) -> Seq<Action> {
    let total = pool_deposit_total(ctx, amount) as u64;
    if token.is_native() {
        seq![
            Action::Move(
                Transfer {
                    from: Party::Seller,
                    to: Party::Registry,
                    amount: total,
                    token,
                    authority: Authority::Program,
                },
            ),
        ]
    } else {
        with_holding(Seq::empty(), ctx.escrow_state_token_account, Party::Registry).push(
            Action::Move(
                Transfer {
                    from: Party::Seller,
                    to: Party::Registry,
                    amount: total,
                    token,
                    authority: Authority::Personal(Party::Seller),
                },
            ),
        )
    }
}

/// Adds to the seller's pooled balance.
pub fn deposit_to_escrow_state(ctx: &DepositToEscrowState, amount: u64, token: Identity) -> (r:
    Result<Vec<Action>, SolanaErrorCode>)
    requires
        amount > 0 ==> pool_deposit_total(*ctx, amount) <= u64::MAX,
    ensures
        match r {
            Ok(actions) => deposit_to_escrow_state_error(*ctx, amount, token) is None && actions@
                == deposit_to_escrow_state_actions(*ctx, amount, token),
            Err(e) => deposit_to_escrow_state_error(*ctx, amount, token) == Some(e),
        },
{
    if amount == 0 {
        return Err(SolanaErrorCode::InvalidAmount);
    }
    let total: u64 = amount + ctx.escrow_state.fee_bps;
    let mut actions: Vec<Action> = Vec::new();
    if token.is_default() {
        if ctx.seller_lamports < total {
            return Err(SolanaErrorCode::InsufficientFunds);
        }
        actions.push(
            Action::Move(
                Transfer {
                    from: Party::Seller,
                    to: Party::Registry,
                    amount: total,
                    token,
                    authority: Authority::Program,
                },
            ),
        );
        assert(actions@ =~= deposit_to_escrow_state_actions(*ctx, amount, token));
    } else {
        open_if_empty(&mut actions, &ctx.escrow_state_token_account, Party::Registry);
        actions.push(
            Action::Move(
                Transfer {
                    from: Party::Seller,
                    to: Party::Registry,
                    amount: total,
                    token,
                    authority: Authority::Personal(Party::Seller),
                },
            ),
        );
    }
    Ok(actions)
}

/// What `withdraw_balance` asks of the host: the amount out of the pool to
/// the seller.
pub open spec fn withdraw_balance_actions(amount: u64, token: Identity) -> Seq<Action> {
    seq![
        Action::Move(
            Transfer {
                from: Party::Registry,
                to: Party::Seller,
                amount,
                token,
                authority: if token.is_native() {
                    Authority::Program
                } else {
                    Authority::Personal(Party::Seller)
                },
            },
        ),
    ]
}

/// Takes from the seller's pooled balance. Whether the pool holds as much is
/// for the host's transfer to say.
///
/// Refused with `InvalidAmount` for a zero amount and for nothing else.
pub fn withdraw_balance(_ctx: &WithdrawBalance, amount: u64, token: Identity) -> (r: Result<
    Vec<Action>,
    SolanaErrorCode,
>)
    ensures
        match r {
            Ok(actions) => amount > 0 && actions@ == withdraw_balance_actions(amount, token),
            Err(e) => amount == 0 && e == SolanaErrorCode::InvalidAmount,
        },
{
    if amount == 0 {
        return Err(SolanaErrorCode::InvalidAmount);
    }
    let authority = if token.is_default() {
        Authority::Program
    } else {
        Authority::Personal(Party::Seller)
    };
    let mut actions: Vec<Action> = Vec::new();
    actions.push(
        Action::Move(Transfer { from: Party::Registry, to: Party::Seller, amount, token, authority }),
    );
    assert(actions@ =~= withdraw_balance_actions(amount, token));
    Ok(actions)
}

} // verus!
