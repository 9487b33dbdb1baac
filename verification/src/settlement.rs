//! The life of an order after its creation: funding, confirmation of
//! payment, release and cancellation.

use vstd::prelude::*;
use crate::accounts::{CancelEscrow, DepositToEscrow, MarkAsPaid, ReleaseFunds};
use crate::authority::{find_order_bump, order_bump};
use crate::creation::{funding, open_if_empty, with_holding};
use crate::error::SolanaErrorCode;
use crate::events::{CancelledByBuyer, CancelledBySeller, Outcome, Released, SellerCancelDisabled};
use crate::fees::PAYMENT_CONFIRMED;
use crate::identity::Identity;
use crate::ledger::{Action, Authority, Party, Transfer};
use crate::records::Escrow;

verus! {

/// One movement of `amount` of `token` out of the order's custody.
pub open spec fn payout(to: Party, amount: u64, token: Identity, authority: Authority) -> Action {
    Action::Move(Transfer { from: Party::Order, to, amount, token, authority })
}

/// Why `deposit_to_escrow` refuses, if it does: a zero amount; in native
/// currency a pool that is to fund the order and holds less than principal
/// and fee; in a token a holding that was not handed over, or the mint where
/// the order's holding has yet to be created.
pub open spec fn deposit_to_escrow_error(
    ctx: DepositToEscrow,
    amount: u64,
    token: Identity,
    instant_escrow: bool,
) -> Option<SolanaErrorCode> {
    if amount == 0 {
        Some(SolanaErrorCode::InvalidAmount)
    } else if token.is_native() {
        if instant_escrow && ctx.escrow_state_lamports < ctx.escrow.total() {
            Some(SolanaErrorCode::InsufficientFunds)
        } else {
            None
        }
    } else if ctx.escrow_token_account is None {
        Some(SolanaErrorCode::AccountError)
    } else if ctx.escrow_token_account.unwrap().is_empty && ctx.mint_account is None {
        Some(SolanaErrorCode::AccountError)
    } else if instant_escrow && ctx.escrow_state_token_account is None {
        Some(SolanaErrorCode::AccountError)
    } else if !instant_escrow && ctx.seller_token_account is None {
        Some(SolanaErrorCode::AccountError)
    } else {
        None
    }
}

/// What `deposit_to_escrow` asks of the host: the order's principal and fee,
/// as the record has them, out of the pool under the registry's authority, or
/// out of the seller's wallet under the seller's signature. For a token the
/// order's holding is opened first where it is missing.
pub open spec fn deposit_to_escrow_actions(
    ctx: DepositToEscrow,
    token: Identity,
    instant_escrow: bool,
) -> Seq<Action> {
    let total = ctx.escrow.total() as u64;
    let from = if instant_escrow {
        Party::Registry
    } else {
        Party::Seller
    };
    let authority = if instant_escrow {
        Authority::Registry
    } else {
        Authority::Personal(Party::Seller)
    };
    if token.is_native() {
        seq![funding(from, total, token, authority)]
    } else {
        with_holding(Seq::empty(), ctx.escrow_token_account.unwrap(), Party::Order).push(
            funding(from, total, token, authority),
        )
    }
}

/// Funds an order that was created without funds. The amount moved is the
/// order's own principal and fee; `amount` is only tested for zero.
pub fn deposit_to_escrow(
    ctx: &DepositToEscrow,
    _order_id: String,
    amount: u64,
    token: Identity,
    instant_escrow: bool,
) -> (r: Result<Vec<Action>, SolanaErrorCode>)
    requires
        amount > 0 ==> ctx.escrow.total() <= u64::MAX,
    ensures
        match r {
            Ok(actions) => deposit_to_escrow_error(*ctx, amount, token, instant_escrow) is None
                && actions@ == deposit_to_escrow_actions(*ctx, token, instant_escrow),
            Err(e) => deposit_to_escrow_error(*ctx, amount, token, instant_escrow) == Some(e),
        },
{
    if amount == 0 {
        return Err(SolanaErrorCode::InvalidAmount);
    }
    let total: u64 = ctx.escrow.amount + ctx.escrow.fee;
    let from = if instant_escrow {
        Party::Registry
    } else {
        Party::Seller
    };
    let mut actions: Vec<Action> = Vec::new();
    if token.is_default() {
        if instant_escrow && ctx.escrow_state_lamports < total {
            return Err(SolanaErrorCode::InsufficientFunds);
        }
        let authority = if instant_escrow {
            Authority::Registry
        } else {
            Authority::Personal(Party::Seller)
        };
        actions.push(Action::Move(Transfer { from, to: Party::Order, amount: total, token, authority }));
        return Ok(actions);
    }
    let holding = match ctx.escrow_token_account {
        Some(h) => h,
        None => {
            return Err(SolanaErrorCode::AccountError);
        },
    };
    if holding.is_empty && ctx.mint_account.is_none() {
        return Err(SolanaErrorCode::AccountError);
    }
    let authority = if instant_escrow {
        if ctx.escrow_state_token_account.is_none() {
            return Err(SolanaErrorCode::AccountError);
        }
        Authority::Registry
    } else {
        if ctx.seller_token_account.is_none() {
            return Err(SolanaErrorCode::AccountError);
        }
        Authority::Personal(Party::Seller)
    };
    open_if_empty(&mut actions, &holding, Party::Order);
    actions.push(Action::Move(Transfer { from, to: Party::Order, amount: total, token, authority }));
    Ok(actions)
}

/// Why an order cannot be released whatever accounts come with it, if it
/// cannot: it does not exist, payment is unconfirmed, the fee recipient is
/// not the registry's, or the buyer is not the order's or is the seller.
pub open spec fn release_terms_error(ctx: ReleaseFunds) -> Option<SolanaErrorCode> {
    if !ctx.escrow.exists {
        Some(SolanaErrorCode::EscrowNotFound)
    } else if !ctx.escrow.payment_confirmed() {
        Some(SolanaErrorCode::CannotReleaseFundsYet)
    } else if ctx.escrow_state.fee_recipient != ctx.fee_recipient {
        Some(SolanaErrorCode::InvalidFeeRecepient)
    } else if ctx.escrow.buyer != ctx.buyer {
        Some(SolanaErrorCode::InvalidBuyer)
    } else if ctx.escrow.buyer == ctx.seller {
        Some(SolanaErrorCode::InvalidBuyer)
    } else {
        None
    }
}

/// Why a release is refused, if it is: for its terms, or, for a token order,
/// for a holding that was not handed over.
pub open spec fn release_funds_error(ctx: ReleaseFunds) -> Option<SolanaErrorCode> {
    match release_terms_error(ctx) {
        Some(e) => Some(e),
        None => if !ctx.escrow.token.is_native() && (ctx.escrow_token_account is None
            || ctx.buyer_token_account is None || ctx.fee_recipient_token_account is None) {
            Some(SolanaErrorCode::AccountError)
        } else {
            None
        },
    }
}

/// What a release asks of the host: the principal to the buyer, then the fee
/// to the fee recipient; a token order signs both with its own authority.
pub open spec fn release_funds_actions(ctx: ReleaseFunds, bump: u8) -> Seq<Action> {
    let authority = if ctx.escrow.token.is_native() {
        Authority::Program
    } else {
        Authority::Order(bump)
    };
    seq![
        payout(Party::Buyer, ctx.escrow.amount, ctx.escrow.token, authority),
        payout(Party::FeeRecipient, ctx.escrow.fee, ctx.escrow.token, authority),
    ]
}

fn check_release_terms(ctx: &ReleaseFunds) -> (r: Option<SolanaErrorCode>)
    ensures
        r == release_terms_error(*ctx),
{
    if !ctx.escrow.exists {
        Some(SolanaErrorCode::EscrowNotFound)
    } else if ctx.escrow.seller_can_cancel_after != PAYMENT_CONFIRMED {
        Some(SolanaErrorCode::CannotReleaseFundsYet)
    } else if !ctx.escrow_state.fee_recipient.same(&ctx.fee_recipient) {
        Some(SolanaErrorCode::InvalidFeeRecepient)
    } else if !ctx.escrow.buyer.same(&ctx.buyer) {
        Some(SolanaErrorCode::InvalidBuyer)
    } else if ctx.escrow.buyer.same(&ctx.seller) {
        Some(SolanaErrorCode::InvalidBuyer)
    } else {
        None
    }
}

/// Releases an order whose derived authority has the bump seed `bump`: pays
/// the buyer the principal and the fee recipient the fee, and settles the
/// order. A refusal leaves the record as it was.
pub fn release_funds_with_bump(ctx: &mut ReleaseFunds, order_id: String, bump: u8) -> (r: Result<
    Outcome<Released>,
    SolanaErrorCode,
>)
    ensures
        match r {
            Ok(out) => {
                &&& release_funds_error(*old(ctx)) is None
                &&& *final(ctx) == (ReleaseFunds { escrow: old(ctx).escrow.settled(), ..*old(ctx) })
                &&& out.actions@ == release_funds_actions(*old(ctx), bump)
                &&& out.event.order_id@ == order_id@
            },
            Err(e) => release_funds_error(*old(ctx)) == Some(e) && *final(ctx) == *old(ctx),
        },
{
    if let Some(e) = check_release_terms(ctx) {
        return Err(e);
    }
    let token = ctx.escrow.token;
    let authority = if token.is_default() {
        Authority::Program
    } else {
        if ctx.escrow_token_account.is_none() || ctx.buyer_token_account.is_none()
            || ctx.fee_recipient_token_account.is_none() {
            return Err(SolanaErrorCode::AccountError);
        }
        Authority::Order(bump)
    };
    let mut actions: Vec<Action> = Vec::new();
    actions.push(
        Action::Move(
            Transfer { from: Party::Order, to: Party::Buyer, amount: ctx.escrow.amount, token, authority },
        ),
    );
    actions.push(
        Action::Move(
            Transfer {
                from: Party::Order,
                to: Party::FeeRecipient,
                amount: ctx.escrow.fee,
                token,
                authority,
            },
        ),
    );
    assert(actions@ =~= release_funds_actions(*ctx, bump));
    ctx.escrow.exists = false;
    Ok(Outcome { actions, event: Released { order_id } })
}

/// Releases an order to its buyer.
///
/// The terms are tested first. A token order then derives its authority from
/// its identifier; where no address can be derived for the identifier, nothing
/// is done and the result is `None`. Everything else is as in
/// `release_funds_with_bump`.
pub fn release_funds(ctx: &mut ReleaseFunds, order_id: String) -> (r: Option<
    Result<Outcome<Released>, SolanaErrorCode>,
>)
    ensures
        match r {
            Some(Ok(out)) => {
                &&& release_funds_error(*old(ctx)) is None
                &&& *final(ctx) == (ReleaseFunds { escrow: old(ctx).escrow.settled(), ..*old(ctx) })
                &&& out.event.order_id@ == order_id@
                &&& if old(ctx).escrow.token.is_native() {
                    out.actions@ == release_funds_actions(*old(ctx), 0)
                } else {
                    order_bump(order_id@, old(ctx).program_id) is Some && out.actions@
                        == release_funds_actions(
                        *old(ctx),
                        order_bump(order_id@, old(ctx).program_id).unwrap(),
                    )
                }
            },
            Some(Err(e)) => {
                &&& release_funds_error(*old(ctx)) == Some(e)
                &&& *final(ctx) == *old(ctx)
                &&& release_terms_error(*old(ctx)) is None && !old(ctx).escrow.token.is_native()
                    ==> order_bump(order_id@, old(ctx).program_id) is Some
            },
            None => {
                &&& release_terms_error(*old(ctx)) is None
                &&& !old(ctx).escrow.token.is_native()
                &&& order_bump(order_id@, old(ctx).program_id) is None
                &&& *final(ctx) == *old(ctx)
            },
        },
{
    if let Some(e) = check_release_terms(ctx) {
        return Some(Err(e));
    }
    if ctx.escrow.token.is_default() {
        return Some(release_funds_with_bump(ctx, order_id, 0));
    }
    match find_order_bump(order_id.as_str(), &ctx.program_id) {
        Some(bump) => Some(release_funds_with_bump(ctx, order_id, bump)),
        None => None,
    }
}

/// Why an operation that needs nothing but the order refuses, if it does.
pub open spec fn missing_order_error(escrow: Escrow) -> Option<SolanaErrorCode> {
    if !escrow.exists {
        Some(SolanaErrorCode::EscrowNotFound)
    } else {
        None
    }
}

/// Records that the buyer has paid: from then on the seller cannot cancel.
///
/// Refused with `EscrowNotFound` for an order that does not exist. The event
/// is handed back the first time only; a repeated confirmation changes
/// nothing.
pub fn mark_as_paid(ctx: &mut MarkAsPaid, order_id: String) -> (r: Result<
    Option<SellerCancelDisabled>,
    SolanaErrorCode,
>)
    ensures
        match r {
            Ok(event) => {
                &&& missing_order_error(old(ctx).escrow) is None
                &&& final(ctx).escrow == (Escrow { seller_can_cancel_after: 1, ..old(ctx).escrow })
                &&& event is Some <==> !old(ctx).escrow.payment_confirmed()
                &&& event is Some ==> event.unwrap().order_id@ == order_id@
            },
            Err(e) => {
                &&& missing_order_error(old(ctx).escrow) == Some(e)
                &&& *final(ctx) == *old(ctx)
            },
        },
{
    if !ctx.escrow.exists {
        return Err(SolanaErrorCode::EscrowNotFound);
    }
    if ctx.escrow.seller_can_cancel_after != PAYMENT_CONFIRMED {
        ctx.escrow.seller_can_cancel_after = PAYMENT_CONFIRMED;
        Ok(Some(SellerCancelDisabled { order_id }))
    } else {
        Ok(None)
    }
}

/// What a cancellation asks of the host: principal and fee back to the
/// seller.
pub open spec fn cancel_actions(ctx: CancelEscrow) -> Seq<Action> {
    seq![
        payout(
            Party::Seller,
            ctx.escrow.total() as u64,
            ctx.escrow.token,
            if ctx.escrow.token.is_native() {
                Authority::Program
            } else {
                Authority::Personal(Party::Seller)
            },
        ),
    ]
}

fn refund(escrow: &Escrow) -> (actions: Vec<Action>)
    requires
        escrow.total() <= u64::MAX,
    ensures
        actions@ == seq![
            payout(
                Party::Seller,
                escrow.total() as u64,
                escrow.token,
                if escrow.token.is_native() {
                    Authority::Program
                } else {
                    Authority::Personal(Party::Seller)
                },
            ),
        ],
{
    let authority = if escrow.token.is_default() {
        Authority::Program
    } else {
        Authority::Personal(Party::Seller)
    };
    let mut actions: Vec<Action> = Vec::new();
    actions.push(
        Action::Move(
            Transfer {
                from: Party::Order,
                to: Party::Seller,
                amount: escrow.amount + escrow.fee,
                token: escrow.token,
                authority,
            },
        ),
    );
    assert(actions@ =~= seq![actions@[0]]);
    actions
}

/// Cancels an order on the buyer's word, at any time before it is settled:
/// principal and fee go back to the seller and the order is settled.
///
/// Refused with `EscrowNotFound` for an order that does not exist; the record
/// is then left as it was.
pub fn buyer_cancel(ctx: &mut CancelEscrow, order_id: String) -> (r: Result<
    Outcome<CancelledByBuyer>,
    SolanaErrorCode,
>)
    requires
        old(ctx).escrow.exists ==> old(ctx).escrow.total() <= u64::MAX,
    ensures
        match r {
            Ok(out) => {
                &&& missing_order_error(old(ctx).escrow) is None
                &&& *final(ctx) == (CancelEscrow { escrow: old(ctx).escrow.settled(), ..*old(ctx) })
                &&& out.actions@ == cancel_actions(*old(ctx))
                &&& out.event.order_id@ == order_id@
            },
            Err(e) => {
                &&& missing_order_error(old(ctx).escrow) == Some(e)
                &&& *final(ctx) == *old(ctx)
            },
        },
{
    if !ctx.escrow.exists {
        return Err(SolanaErrorCode::EscrowNotFound);
    }
    let actions = refund(&ctx.escrow);
    ctx.escrow.exists = false;
    Ok(Outcome { actions, event: CancelledByBuyer { order_id } })
}

/// Why `seller_cancel` refuses at time `now`, if it does.
pub open spec fn seller_cancel_error(ctx: CancelEscrow, now: i64) -> Option<SolanaErrorCode> {
    if !ctx.escrow.exists {
        Some(SolanaErrorCode::EscrowNotFound)
    } else if !ctx.escrow.seller_may_cancel(now) {
        Some(SolanaErrorCode::CannotCancelYet)
    } else {
        None
    }
}

/// Tests whether the seller may cancel at time `now`.
pub fn seller_cancel_refusal(ctx: &CancelEscrow, now: i64) -> (r: Option<SolanaErrorCode>)
    ensures
        r == seller_cancel_error(*ctx, now),
{
    if !ctx.escrow.exists {
        Some(SolanaErrorCode::EscrowNotFound)
    } else if !(ctx.escrow.seller_can_cancel_after > PAYMENT_CONFIRMED
        && ctx.escrow.seller_can_cancel_after <= now) {
        Some(SolanaErrorCode::CannotCancelYet)
    } else {
        None
    }
}

/// Cancels an order on the seller's word: principal and fee go back to the
/// seller and the order is settled.
///
/// Refused with `EscrowNotFound` for an order that does not exist, and with
/// `CannotCancelYet` once payment is confirmed or while the waiting time
/// runs; the record is then left as it was.
pub fn seller_cancel(ctx: &mut CancelEscrow, order_id: String, now: i64) -> (r: Result<
    Outcome<CancelledBySeller>,
    SolanaErrorCode,
>)
    requires
        seller_cancel_error(*old(ctx), now) is None ==> old(ctx).escrow.total() <= u64::MAX,
    ensures
        match r {
            Ok(out) => {
                &&& seller_cancel_error(*old(ctx), now) is None
                &&& *final(ctx) == (CancelEscrow { escrow: old(ctx).escrow.settled(), ..*old(ctx) })
                &&& out.actions@ == cancel_actions(*old(ctx))
                &&& out.event.order_id@ == order_id@
            },
            Err(e) => seller_cancel_error(*old(ctx), now) == Some(e) && *final(ctx) == *old(ctx),
        },
{
    if let Some(e) = seller_cancel_refusal(ctx, now) {
        return Err(e);
    }
    let actions = refund(&ctx.escrow);
    ctx.escrow.exists = false;
    Ok(Outcome { actions, event: CancelledBySeller { order_id } })
}

} // verus!
