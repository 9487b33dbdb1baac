//! Arbitration: a party to an order opens a dispute, the arbitrator resolves
//! it.

use vstd::prelude::*;
use crate::accounts::{OpenDispute, ResolveDispute};
use crate::error::SolanaErrorCode;
use crate::events::{DisputeOpened, DisputeResolved, Outcome};
use crate::fees::{DISPUTE_FEE, PAYMENT_CONFIRMED};
use crate::identity::Identity;
use crate::ledger::{Action, Authority, Party, Transfer};
use crate::records::Escrow;
use crate::settlement::payout;

verus! {

/// Why a dispute cannot be opened, if it cannot. An order that does not exist
/// is not found, whoever asks. A payer who cannot cover the registry's
/// dispute fee and one who is no party to the order are turned away alike.
pub open spec fn open_dispute_error(ctx: OpenDispute) -> Option<SolanaErrorCode> {
    if !ctx.escrow.exists {
        Some(SolanaErrorCode::EscrowNotFound)
    } else if ctx.payer_lamports < ctx.escrow_state.dispute_fee {
        Some(SolanaErrorCode::InsufficientFundsForDispute)
    } else if ctx.payer != ctx.escrow.buyer && ctx.payer != ctx.escrow.seller {
        Some(SolanaErrorCode::InsufficientFundsForDispute)
    } else if !ctx.escrow.payment_confirmed() {
        Some(SolanaErrorCode::CannotOpenDisputeYet)
    } else {
        None
    }
}

/// As which party the payer opens a dispute.
pub open spec fn disputant(ctx: OpenDispute) -> Party {
    if ctx.payer == ctx.escrow.buyer {
        Party::Buyer
    } else {
        Party::Seller
    }
}

/// The order once `ctx.payer` has opened a dispute on it.
pub open spec fn disputed(ctx: OpenDispute) -> Escrow {
    if ctx.payer == ctx.escrow.buyer {
        Escrow { dispute: true, buyer_paid_dispute: true, ..ctx.escrow }
    } else {
        Escrow { dispute: true, seller_paid_dispute: true, ..ctx.escrow }
    }
}

/// What opening a dispute asks of the host: the fixed stake, in native
/// currency, from the payer into the registry's custody.
pub open spec fn open_dispute_actions(ctx: OpenDispute) -> Seq<Action> {
    seq![
        Action::Move(
            Transfer {
                from: disputant(ctx),
                to: Party::Registry,
                amount: DISPUTE_FEE,
                token: Identity::zero(),
                authority: Authority::Personal(disputant(ctx)),
            },
        ),
    ]
}

/// Opens a dispute on an order whose payment is confirmed. The payer stakes
/// the fixed dispute fee and is marked as having paid it.
pub fn open_dispute(ctx: &mut OpenDispute, order_id: String) -> (r: Result<
    Outcome<DisputeOpened>,
    SolanaErrorCode,
>)
    ensures
        match r {
            Ok(out) => {
                &&& open_dispute_error(*old(ctx)) is None
                &&& *final(ctx) == (OpenDispute { escrow: disputed(*old(ctx)), ..*old(ctx) })
                &&& out.actions@ == open_dispute_actions(*old(ctx))
                &&& out.event.order_id@ == order_id@
                &&& out.event.sender == old(ctx).payer
            },
            Err(e) => open_dispute_error(*old(ctx)) == Some(e) && *final(ctx) == *old(ctx),
        },
{
    if !ctx.escrow.exists {
        return Err(SolanaErrorCode::EscrowNotFound);
    }
    if ctx.payer_lamports < ctx.escrow_state.dispute_fee {
        return Err(SolanaErrorCode::InsufficientFundsForDispute);
    }
    let by_buyer = ctx.payer.same(&ctx.escrow.buyer);
    if !by_buyer && !ctx.payer.same(&ctx.escrow.seller) {
        return Err(SolanaErrorCode::InsufficientFundsForDispute);
    }
    if ctx.escrow.seller_can_cancel_after != PAYMENT_CONFIRMED {
        return Err(SolanaErrorCode::CannotOpenDisputeYet);
    }
    let from = if by_buyer {
        ctx.escrow.buyer_paid_dispute = true;
        Party::Buyer
    } else {
        ctx.escrow.seller_paid_dispute = true;
        Party::Seller
    };
    ctx.escrow.dispute = true;
    let mut actions: Vec<Action> = Vec::new();
    actions.push(
        Action::Move(
            Transfer {
                from,
                to: Party::Registry,
                amount: DISPUTE_FEE,
                token: Identity::default(),
                authority: Authority::Personal(from),
            },
        ),
    );
    assert(actions@ =~= open_dispute_actions(*old(ctx)));
    Ok(Outcome { actions, event: DisputeOpened { order_id, sender: ctx.payer } })
}

/// Why a dispute cannot be resolved for `winner`, if it cannot: the order
/// does not exist, no dispute is open on it, the winner is neither the buyer
/// nor the seller that the order records, the arbitrator is not the
/// registry's, or the buyer or the seller handed in is not the order's.
pub open spec fn resolve_dispute_error(ctx: ResolveDispute, winner: Identity) -> Option<
    SolanaErrorCode,
> {
    if !ctx.escrow.exists {
        Some(SolanaErrorCode::EscrowNotFound)
    } else if !ctx.escrow.dispute {
        Some(SolanaErrorCode::DisputeNotOpen)
    } else if winner != ctx.escrow.seller && winner != ctx.escrow.buyer {
        Some(SolanaErrorCode::InvalidWinner)
    } else if ctx.arbitrator != ctx.escrow_state.arbitrator {
        Some(SolanaErrorCode::InvalidArbitrator)
    } else if ctx.buyer != ctx.escrow.buyer {
        Some(SolanaErrorCode::InvalidBuyer)
    } else if ctx.seller != ctx.escrow.seller {
        Some(SolanaErrorCode::AccountError)
    } else {
        None
    }
}

/// The party that `winner` is.
pub open spec fn winning_party(ctx: ResolveDispute, winner: Identity) -> Party {
    if winner == ctx.escrow.buyer {
        Party::Buyer
    } else {
        Party::Seller
    }
}

/// One stake paid out of the registry's custody.
pub open spec fn stake(to: Party) -> Action {
    Action::Move(
        Transfer {
            from: Party::Registry,
            to,
            amount: DISPUTE_FEE,
            token: Identity::zero(),
            authority: Authority::Registry,
        },
    )
}

/// What resolving a dispute asks of the host: one stake to the winner, one to
/// the arbitrator, then the whole principal to the winner. The trade fee is
/// not taken.
pub open spec fn resolve_dispute_actions(ctx: ResolveDispute, winner: Identity) -> Seq<Action> {
    seq![
        stake(winning_party(ctx, winner)),
        stake(Party::Arbitrator),
        payout(
            winning_party(ctx, winner),
            ctx.escrow.amount,
            ctx.escrow.token,
            if ctx.escrow.token.is_native() {
                Authority::Program
            } else {
                Authority::Personal(Party::Seller)
            },
        ),
    ]
}

/// Resolves an open dispute for the buyer or the seller of the order, on the
/// word of the registry's arbitrator, and settles the order. A refusal leaves
/// the record as it was and moves nothing.
pub fn resolve_dispute(ctx: &mut ResolveDispute, order_id: String, winner: Identity) -> (r: Result<
    Outcome<DisputeResolved>,
    SolanaErrorCode,
>)
    ensures
        match r {
            Ok(out) => {
                &&& resolve_dispute_error(*old(ctx), winner) is None
                &&& *final(ctx) == (ResolveDispute { escrow: old(ctx).escrow.settled(), ..*old(ctx) })
                &&& out.actions@ == resolve_dispute_actions(*old(ctx), winner)
                &&& out.event.order_id@ == order_id@
                &&& out.event.winner == winner
            },
            Err(e) => resolve_dispute_error(*old(ctx), winner) == Some(e) && *final(ctx) == *old(
                ctx,
            ),
        },
{
    if !ctx.escrow.exists {
        return Err(SolanaErrorCode::EscrowNotFound);
    }
    if !ctx.escrow.dispute {
        return Err(SolanaErrorCode::DisputeNotOpen);
    }
    let for_buyer = winner.same(&ctx.escrow.buyer);
    if !for_buyer && !winner.same(&ctx.escrow.seller) {
        return Err(SolanaErrorCode::InvalidWinner);
    }
    if !ctx.arbitrator.same(&ctx.escrow_state.arbitrator) {
        return Err(SolanaErrorCode::InvalidArbitrator);
    }
    if !ctx.buyer.same(&ctx.escrow.buyer) {
        return Err(SolanaErrorCode::InvalidBuyer);
    }
    if !ctx.seller.same(&ctx.escrow.seller) {
        return Err(SolanaErrorCode::AccountError);
    }
    let to = if for_buyer {
        Party::Buyer
    } else {
        Party::Seller
    };
    let native = Identity::default();
    let authority = if ctx.escrow.token.is_default() {
        Authority::Program
    } else {
        Authority::Personal(Party::Seller)
    };
    let mut actions: Vec<Action> = Vec::new();
    actions.push(
        Action::Move(
            Transfer {
                from: Party::Registry,
                to,
                amount: DISPUTE_FEE,
                token: native,
                authority: Authority::Registry,
            },
        ),
    );
    actions.push(
        Action::Move(
            Transfer {
                from: Party::Registry,
                to: Party::Arbitrator,
                amount: DISPUTE_FEE,
                token: native,
                authority: Authority::Registry,
            },
        ),
    );
    actions.push(
        Action::Move(
            Transfer {
                from: Party::Order,
                to,
                amount: ctx.escrow.amount,
                token: ctx.escrow.token,
                authority,
            },
        ),
    );
    assert(actions@ =~= resolve_dispute_actions(*ctx, winner));
    ctx.escrow.exists = false;
    Ok(Outcome { actions, event: DisputeResolved { order_id, winner } })
}

} // verus!
