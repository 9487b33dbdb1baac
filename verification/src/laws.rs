//! What holds of the operations taken together.

use vstd::prelude::*;
use crate::accounts::{
    CancelEscrow, CreateEscrowSOL, CreateEscrowSOLBuyer, CreateEscrowToken,
    CreateEscrowTokenBuyer, DepositToEscrow, DepositToEscrowState, OpenDispute, ReleaseFunds,
    ResolveDispute,
};
use crate::creation::{
    create_escrow_sol_actions, create_escrow_sol_buyer_actions, create_escrow_token_actions,
    create_escrow_token_buyer_actions, create_escrow_token_buyer_error,
    create_escrow_token_error, created, creation_error,
};
use crate::dispute::{
    disputed, open_dispute_actions, open_dispute_error, resolve_dispute_actions,
    resolve_dispute_error, winning_party,
};
use crate::error::SolanaErrorCode;
use crate::fees::{trade_fee, waiting_time_allowed, DISPUTE_FEE};
use crate::identity::{lemma_native_is_zero, Identity};
use crate::ledger::{
    balances_after, lemma_balance_after, lemma_closed_actions_conserve, lemma_net_gain_of_three,
    lemma_only_last_counts, lemma_trade_funds_after, net_gain, trade_funds, Action, Balances,
    Party,
};
use crate::records::Escrow;
use crate::registry::{deposit_to_escrow_state_actions, withdraw_balance_actions};
use crate::settlement::{
    cancel_actions, deposit_to_escrow_actions, missing_order_error, release_funds_actions,
    release_funds_error, seller_cancel_error,
};

verus! {

/// An order is created exactly when the amount is positive, buyer and seller
/// differ, the waiting time lies between fifteen minutes and a day, and the
/// order does not exist yet. The order created is well formed, and where the
/// deadline fits its field the seller can cancel no sooner than fifteen
/// minutes and no later than a day from `now`.
pub proof fn law_creation_terms(
    prior: Escrow,
    fee_bps: u64,
    seller: Identity,
    buyer: Identity,
    partner: Identity,
    token: Identity,
    amount: u64,
    seller_waiting_time: i64,
    automatic_escrow: bool,
    now: i64,
)
    ensures
        creation_error(prior, seller, buyer, amount, seller_waiting_time) is None <==> amount > 0
            && buyer != seller && 900 <= seller_waiting_time <= 86_400 && !prior.exists,
        creation_error(prior, seller, buyer, amount, seller_waiting_time) is None ==> created(
            prior,
            fee_bps,
            seller,
            buyer,
            partner,
            token,
            amount,
            seller_waiting_time,
            automatic_escrow,
            now,
        ).well_formed(),
        creation_error(prior, seller, buyer, amount, seller_waiting_time) is None && now
            + seller_waiting_time <= i64::MAX ==> now + 900 <= created(
            prior,
            fee_bps,
            seller,
            buyer,
            partner,
            token,
            amount,
            seller_waiting_time,
            automatic_escrow,
            now,
        ).seller_can_cancel_after <= now + 86_400,
{
}

/// The token variants create an order only on the terms of every creation.
pub proof fn law_token_creation_terms(
    by_seller: CreateEscrowToken,
    by_buyer: CreateEscrowTokenBuyer,
    amount: u64,
    seller_waiting_time: i64,
    automatic_escrow: bool,
    from_wallet: bool,
)
    ensures
        create_escrow_token_error(
            by_seller,
            amount,
            seller_waiting_time,
            automatic_escrow,
            from_wallet,
        ) is None ==> amount > 0 && by_seller.buyer != by_seller.seller && waiting_time_allowed(
            seller_waiting_time,
        ),
        create_escrow_token_buyer_error(by_buyer, amount, seller_waiting_time, automatic_escrow)
            is None ==> amount > 0 && by_buyer.buyer != by_buyer.seller && waiting_time_allowed(
            seller_waiting_time,
        ),
{
}

/// One operation on an order that exists or has existed: everything but its
/// creation. Each carries what it is handed besides the order's record.
pub enum Operation {
    MarkAsPaid,
    Release(ReleaseFunds),
    BuyerCancel,
    SellerCancel { now: i64 },
    OpenDispute(OpenDispute),
    ResolveDispute(ResolveDispute, Identity),
}

/// The order's record after one operation: as the operation leaves it where
/// it succeeds, unchanged where it is refused.
pub open spec fn after(escrow: Escrow, operation: Operation) -> Escrow {
    match operation {
        Operation::MarkAsPaid => if missing_order_error(escrow) is None {
            Escrow { seller_can_cancel_after: 1, ..escrow }
        } else {
            escrow
        },
        Operation::Release(ctx) => if release_funds_error(ReleaseFunds { escrow, ..ctx }) is None {
            escrow.settled()
        } else {
            escrow
        },
        Operation::BuyerCancel => if missing_order_error(escrow) is None {
            escrow.settled()
        } else {
            escrow
        },
        Operation::SellerCancel { now } => if escrow.exists && escrow.seller_may_cancel(now) {
            escrow.settled()
        } else {
            escrow
        },
        Operation::OpenDispute(ctx) => if open_dispute_error(OpenDispute { escrow, ..ctx })
            is None {
            disputed(OpenDispute { escrow, ..ctx })
        } else {
            escrow
        },
        Operation::ResolveDispute(ctx, winner) => if resolve_dispute_error(
            ResolveDispute { escrow, ..ctx },
            winner,
        ) is None {
            escrow.settled()
        } else {
            escrow
        },
    }
}

/// The order's record after a sequence of operations.
pub open spec fn after_all(escrow: Escrow, operations: Seq<Operation>) -> Escrow
    decreases operations.len(),
{
    if operations.len() == 0 {
        escrow
    } else {
        after(after_all(escrow, operations.drop_last()), operations.last())
    }
}

/// An order that has been settled stays settled: whatever operations follow,
/// all are refused and the record stays as the settlement left it. So
/// `exists` falls from true to false at most once.
pub proof fn law_settled_order_stays_settled(escrow: Escrow, operations: Seq<Operation>)
    requires
        !escrow.exists,
    ensures
        after_all(escrow, operations) == escrow,
    decreases operations.len(),
{
    if operations.len() > 0 {
        law_settled_order_stays_settled(escrow, operations.drop_last());
    }
}

/// No operation but creation makes an order exist, and none unconfirms a
/// payment.
pub proof fn law_operations_only_advance(escrow: Escrow, operation: Operation)
    ensures
        after(escrow, operation).exists ==> escrow.exists,
        escrow.payment_confirmed() ==> after(escrow, operation).payment_confirmed(),
        escrow.dispute ==> after(escrow, operation).dispute,
{
}

/// No operation on an order brings a settled order back: what release,
/// cancellation and resolution leave does not exist, and opening a dispute
/// leaves `exists` as it was.
pub proof fn law_settlement_is_final(escrow: Escrow, dispute: OpenDispute)
    ensures
        !escrow.settled().exists,
        disputed(dispute).exists == dispute.escrow.exists,
{
}

/// An order that does not exist is not found: confirmation of payment,
/// release, either cancellation and resolution are refused with
/// `EscrowNotFound`.
pub proof fn law_settled_order_is_not_found(
    release: ReleaseFunds,
    cancel: CancelEscrow,
    resolve: ResolveDispute,
    winner: Identity,
    now: i64,
)
    ensures
        !cancel.escrow.exists ==> missing_order_error(cancel.escrow) == Some(
            SolanaErrorCode::EscrowNotFound,
        ),
        !cancel.escrow.exists ==> seller_cancel_error(cancel, now) == Some(
            SolanaErrorCode::EscrowNotFound,
        ),
        !release.escrow.exists ==> release_funds_error(release) == Some(
            SolanaErrorCode::EscrowNotFound,
        ),
        !resolve.escrow.exists ==> resolve_dispute_error(resolve, winner) == Some(
            SolanaErrorCode::EscrowNotFound,
        ),
{
}

/// Confirming payment, opening a dispute and settling keep an order well
/// formed.
pub proof fn law_operations_keep_orders_well_formed(escrow: Escrow, dispute: OpenDispute)
    requires
        escrow.well_formed(),
        dispute.escrow.well_formed(),
    ensures
        (Escrow { seller_can_cancel_after: 1, ..escrow }).well_formed(),
        escrow.settled().well_formed(),
        disputed(dispute).well_formed(),
{
}

/// A dispute cannot be opened on an order that does not exist: whoever the
/// payer and whatever the payer holds, the refusal is `EscrowNotFound`.
pub proof fn law_no_dispute_on_settled_order(ctx: OpenDispute)
    requires
        !ctx.escrow.exists,
    ensures
        open_dispute_error(ctx) == Some(SolanaErrorCode::EscrowNotFound),
{
}

/// A dispute is resolved only for the buyer or the seller that the order
/// records, only by the registry's arbitrator, and only with the order's own
/// buyer and seller as the accounts that are paid.
pub proof fn law_resolution_terms(ctx: ResolveDispute, winner: Identity)
    ensures
        resolve_dispute_error(ctx, winner) is None <==> ctx.escrow.exists && ctx.escrow.dispute && (
        winner == ctx.escrow.buyer || winner == ctx.escrow.seller) && ctx.arbitrator
            == ctx.escrow_state.arbitrator && ctx.buyer == ctx.escrow.buyer && ctx.seller
            == ctx.escrow.seller,
        ctx.escrow.exists && ctx.escrow.dispute && winner != ctx.escrow.buyer && winner
            != ctx.escrow.seller ==> resolve_dispute_error(ctx, winner) == Some(
            SolanaErrorCode::InvalidWinner,
        ),
        ctx.escrow.exists && ctx.escrow.dispute && ctx.arbitrator != ctx.escrow_state.arbitrator
            ==> resolve_dispute_error(ctx, winner) is Some,
{
}

/// Release needs a confirmed payment on an order that exists.
pub proof fn law_release_needs_payment(ctx: ReleaseFunds)
    requires
        release_funds_error(ctx) is None,
    ensures
        ctx.escrow.exists,
        ctx.escrow.seller_can_cancel_after == 1,
{
}

/// The buyer can cancel whenever the order exists; the seller exactly when it
/// exists, payment is unconfirmed and the waiting time has passed.
pub proof fn law_cancellation_terms(ctx: CancelEscrow, now: i64)
    ensures
        missing_order_error(ctx.escrow) is None <==> ctx.escrow.exists,
        seller_cancel_error(ctx, now) is None <==> ctx.escrow.exists
            && ctx.escrow.seller_can_cancel_after > 1 && ctx.escrow.seller_can_cancel_after <= now,
{
}

/// Funding an order moves funds among its five holders only: together they
/// hold as much of every asset after a creation or a deposit as before.
pub proof fn law_funding_conserves_funds(
    sol: CreateEscrowSOL,
    sol_buyer: CreateEscrowSOLBuyer,
    tok: CreateEscrowToken,
    tok_buyer: CreateEscrowTokenBuyer,
    deposit: DepositToEscrow,
    amount: u64,
    automatic_escrow: bool,
    token: Identity,
    from_wallet: bool,
    held: Balances,
    asset: Identity,
)
    ensures
        trade_funds(
            balances_after(held, create_escrow_sol_actions(sol, amount, automatic_escrow)),
            asset,
        ) == trade_funds(held, asset),
        trade_funds(
            balances_after(
                held,
                create_escrow_sol_buyer_actions(sol_buyer, amount, automatic_escrow),
            ),
            asset,
        ) == trade_funds(held, asset),
        trade_funds(
            balances_after(
                held,
                create_escrow_token_actions(tok, amount, automatic_escrow, token, from_wallet),
            ),
            asset,
        ) == trade_funds(held, asset),
        trade_funds(
            balances_after(
                held,
                create_escrow_token_buyer_actions(tok_buyer, amount, automatic_escrow, token),
            ),
            asset,
        ) == trade_funds(held, asset),
        trade_funds(
            balances_after(held, deposit_to_escrow_actions(deposit, token, from_wallet)),
            asset,
        ) == trade_funds(held, asset),
{
    lemma_closed_actions_conserve(
        held,
        create_escrow_sol_actions(sol, amount, automatic_escrow),
        asset,
    );
    lemma_closed_actions_conserve(
        held,
        create_escrow_sol_buyer_actions(sol_buyer, amount, automatic_escrow),
        asset,
    );
    lemma_closed_actions_conserve(
        held,
        create_escrow_token_actions(tok, amount, automatic_escrow, token, from_wallet),
        asset,
    );
    lemma_closed_actions_conserve(
        held,
        create_escrow_token_buyer_actions(tok_buyer, amount, automatic_escrow, token),
        asset,
    );
    lemma_closed_actions_conserve(
        held,
        deposit_to_escrow_actions(deposit, token, from_wallet),
        asset,
    );
}

/// Release and cancellation move funds among the five holders only, and so
/// do a deposit into the pool, a withdrawal from it and the stake of an
/// opened dispute.
pub proof fn law_settlement_conserves_funds(
    release: ReleaseFunds,
    bump: u8,
    cancel: CancelEscrow,
    dispute: OpenDispute,
    pool: DepositToEscrowState,
    amount: u64,
    token: Identity,
    held: Balances,
    asset: Identity,
)
    ensures
        trade_funds(balances_after(held, release_funds_actions(release, bump)), asset)
            == trade_funds(held, asset),
        trade_funds(balances_after(held, cancel_actions(cancel)), asset) == trade_funds(
            held,
            asset,
        ),
        trade_funds(balances_after(held, open_dispute_actions(dispute)), asset) == trade_funds(
            held,
            asset,
        ),
        trade_funds(
            balances_after(held, deposit_to_escrow_state_actions(pool, amount, token)),
            asset,
        ) == trade_funds(held, asset),
        trade_funds(balances_after(held, withdraw_balance_actions(amount, token)), asset)
            == trade_funds(held, asset),
{
    lemma_closed_actions_conserve(held, release_funds_actions(release, bump), asset);
    lemma_closed_actions_conserve(held, cancel_actions(cancel), asset);
    lemma_closed_actions_conserve(held, open_dispute_actions(dispute), asset);
    lemma_closed_actions_conserve(
        held,
        deposit_to_escrow_state_actions(pool, amount, token),
        asset,
    );
    lemma_closed_actions_conserve(held, withdraw_balance_actions(amount, token), asset);
}

/// Resolving a dispute costs the five holders of a trade's funds exactly the
/// arbitrator's stake, in native currency, and nothing of any other asset.
pub proof fn law_resolution_conserves_funds(
    ctx: ResolveDispute,
    winner: Identity,
    held: Balances,
    asset: Identity,
)
    ensures
        trade_funds(balances_after(held, resolve_dispute_actions(ctx, winner)), asset)
            == trade_funds(held, asset) - if asset.is_native() {
            DISPUTE_FEE as int
        } else {
            0
        },
{
    let s = resolve_dispute_actions(ctx, winner);
    lemma_net_gain_of_three(s[0], s[1], s[2], Party::Arbitrator, asset);
    assert(s =~= seq![s[0], s[1], s[2]]);
    lemma_trade_funds_after(held, s, asset);
    lemma_native_is_zero(asset);
}

/// What one movement of `amount` of `token` from one party to another leaves
/// `party` holding of `asset`.
pub open spec fn moved(
    held: Balances,
    from: Party,
    to: Party,
    amount: int,
    token: Identity,
    party: Party,
    asset: Identity,
) -> int {
    held(party, asset) + (if party == to && asset == token {
        amount
    } else {
        0
    }) - (if party == from && asset == token {
        amount
    } else {
        0
    })
}

/// A native order that is funded at once takes principal and fee from the
/// seller, or from the seller's pool where the buyer created it, into the
/// order's custody; every other balance stays. An order that is not funded at
/// once moves nothing.
pub proof fn law_native_creation_moves_funds(
    sol: CreateEscrowSOL,
    sol_buyer: CreateEscrowSOLBuyer,
    amount: u64,
    automatic_escrow: bool,
    held: Balances,
    party: Party,
    asset: Identity,
)
    requires
        automatic_escrow ==> amount + trade_fee(amount, sol.escrow_state.fee_bps) <= u64::MAX
            && amount + trade_fee(amount, sol_buyer.escrow_state.fee_bps) <= u64::MAX,
    ensures
        balances_after(held, create_escrow_sol_actions(sol, amount, automatic_escrow))(party, asset)
            == if automatic_escrow {
            moved(
                held,
                Party::Seller,
                Party::Order,
                amount + trade_fee(amount, sol.escrow_state.fee_bps),
                Identity::zero(),
                party,
                asset,
            )
        } else {
            held(party, asset)
        },
        balances_after(
            held,
            create_escrow_sol_buyer_actions(sol_buyer, amount, automatic_escrow),
        )(party, asset) == if automatic_escrow {
            moved(
                held,
                Party::Registry,
                Party::Order,
                amount + trade_fee(amount, sol_buyer.escrow_state.fee_bps),
                Identity::zero(),
                party,
                asset,
            )
        } else {
            held(party, asset)
        },
{
    let a = create_escrow_sol_actions(sol, amount, automatic_escrow);
    lemma_balance_after(held, a, party, asset);
    let b = create_escrow_sol_buyer_actions(sol_buyer, amount, automatic_escrow);
    lemma_balance_after(held, b, party, asset);
    if automatic_escrow {
        lemma_only_last_counts(a, party, asset);
        lemma_only_last_counts(b, party, asset);
    }
}

/// A token order that is funded at once takes principal and fee from the
/// seller's wallet, or from the seller's pool, into the order's custody;
/// every other balance stays. An order that is not funded at once moves
/// nothing.
pub proof fn law_token_creation_moves_funds(
    tok: CreateEscrowToken,
    tok_buyer: CreateEscrowTokenBuyer,
    amount: u64,
    automatic_escrow: bool,
    token: Identity,
    from_wallet: bool,
    held: Balances,
    party: Party,
    asset: Identity,
)
    requires
        automatic_escrow ==> amount + trade_fee(amount, tok.escrow_state.fee_bps) <= u64::MAX
            && amount + trade_fee(amount, tok_buyer.escrow_state.fee_bps) <= u64::MAX,
    ensures
        balances_after(
            held,
            create_escrow_token_actions(tok, amount, automatic_escrow, token, from_wallet),
        )(party, asset) == if automatic_escrow {
            moved(
                held,
                if from_wallet {
                    Party::Seller
                } else {
                    Party::Registry
                },
                Party::Order,
                amount + trade_fee(amount, tok.escrow_state.fee_bps),
                token,
                party,
                asset,
            )
        } else {
            held(party, asset)
        },
        balances_after(
            held,
            create_escrow_token_buyer_actions(tok_buyer, amount, automatic_escrow, token),
        )(party, asset) == if automatic_escrow {
            moved(
                held,
                Party::Registry,
                Party::Order,
                amount + trade_fee(amount, tok_buyer.escrow_state.fee_bps),
                token,
                party,
                asset,
            )
        } else {
            held(party, asset)
        },
{
    let a = create_escrow_token_actions(tok, amount, automatic_escrow, token, from_wallet);
    lemma_balance_after(held, a, party, asset);
    let b = create_escrow_token_buyer_actions(tok_buyer, amount, automatic_escrow, token);
    lemma_balance_after(held, b, party, asset);
    if automatic_escrow {
        lemma_only_last_counts(a, party, asset);
        lemma_only_last_counts(b, party, asset);
    }
}

/// A deposit takes the order's principal and fee into the order's custody:
/// out of the pool where it is instant, the seller's balance then staying as
/// it was; out of the seller's balance where it is not, the pool then staying
/// as it was.
pub proof fn law_deposit_moves_funds(
    ctx: DepositToEscrow,
    token: Identity,
    instant_escrow: bool,
    held: Balances,
    party: Party,
    asset: Identity,
)
    requires
        ctx.escrow.total() <= u64::MAX,
    ensures
        balances_after(held, deposit_to_escrow_actions(ctx, token, instant_escrow))(party, asset)
            == moved(
            held,
            if instant_escrow {
                Party::Registry
            } else {
                Party::Seller
            },
            Party::Order,
            ctx.escrow.total(),
            token,
            party,
            asset,
        ),
{
    let a = deposit_to_escrow_actions(ctx, token, instant_escrow);
    lemma_balance_after(held, a, party, asset);
    lemma_only_last_counts(a, party, asset);
}

/// A cancellation gives principal and fee back to the seller out of the
/// order's custody; every other balance stays.
pub proof fn law_cancellation_moves_funds(
    ctx: CancelEscrow,
    held: Balances,
    party: Party,
    asset: Identity,
)
    requires
        ctx.escrow.total() <= u64::MAX,
    ensures
        balances_after(held, cancel_actions(ctx))(party, asset) == moved(
            held,
            Party::Order,
            Party::Seller,
            ctx.escrow.total(),
            ctx.escrow.token,
            party,
            asset,
        ),
{
    let a = cancel_actions(ctx);
    lemma_balance_after(held, a, party, asset);
    lemma_only_last_counts(a, party, asset);
}

/// A release takes principal and fee out of the order's custody, pays the
/// buyer the principal and the fee recipient the fee, in the order's asset.
/// Seller, registry and arbitrator hold what they held, and nothing of any
/// other asset moves: the referral fee is paid to no one.
pub proof fn law_release_payout(
    ctx: ReleaseFunds,
    bump: u8,
    held: Balances,
    party: Party,
    asset: Identity,
)
    ensures
        balances_after(held, release_funds_actions(ctx, bump))(party, asset) == held(party, asset)
            + if asset != ctx.escrow.token {
            0
        } else if party == Party::Buyer {
            ctx.escrow.amount as int
        } else if party == Party::FeeRecipient {
            ctx.escrow.fee as int
        } else if party == Party::Order {
            -(ctx.escrow.amount + ctx.escrow.fee)
        } else {
            0
        },
{
    let s = release_funds_actions(ctx, bump);
    lemma_balance_after(held, s, party, asset);
    assert(s.drop_last() =~= seq![s[0]]);
    assert(s.drop_last().drop_last() =~= Seq::<Action>::empty());
    reveal_with_fuel(net_gain, 3);
}

/// Resolving a dispute pays two stakes in native currency out of the
/// registry's custody, one to the winner and one to the arbitrator, and the
/// whole principal out of the order's custody to the winner, in the order's
/// asset. The fee recipient and the losing party hold what they held.
pub proof fn law_dispute_payout(
    ctx: ResolveDispute,
    winner: Identity,
    held: Balances,
    party: Party,
    asset: Identity,
)
    ensures
        balances_after(held, resolve_dispute_actions(ctx, winner))(party, asset) == held(
            party,
            asset,
        ) + (if asset.is_native() {
            if party == Party::Registry {
                -2 * DISPUTE_FEE
            } else if party == Party::Arbitrator || party == winning_party(ctx, winner) {
                DISPUTE_FEE as int
            } else {
                0
            }
        } else {
            0
        }) + (if asset != ctx.escrow.token {
            0
        } else if party == Party::Order {
            -(ctx.escrow.amount as int)
        } else if party == winning_party(ctx, winner) {
            ctx.escrow.amount as int
        } else {
            0
        }),
{
    let s = resolve_dispute_actions(ctx, winner);
    assert(s =~= seq![s[0], s[1], s[2]]);
    lemma_native_is_zero(asset);
    lemma_balance_after(held, s, party, asset);
    lemma_net_gain_of_three(s[0], s[1], s[2], party, asset);
}

} // verus!
