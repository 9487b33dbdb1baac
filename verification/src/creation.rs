//! Creating an order, by the seller or by the buyer, in native currency or
//! in a token, funded at once or later.

use vstd::prelude::*;
use crate::accounts::{
    CreateEscrowSOL, CreateEscrowSOLBuyer, CreateEscrowToken, CreateEscrowTokenBuyer,
    HoldingAccount,
};
use crate::error::SolanaErrorCode;
use crate::events::{EscrowCreated, Outcome};
use crate::fees::{
    checked_bps_share, checked_total, lemma_open_peer_fee_fits, open_peer_fee, trade_fee, waiting_time_allowed, MAX_SELLER_WAITING_TIME,
    MIN_SELLER_WAITING_TIME, OPEN_PEER_FEE_BPS,
};
use crate::identity::Identity;
use crate::ledger::{Action, Authority, Party, Transfer};
use crate::records::Escrow;

verus! {

/// Why an order cannot be created, if it cannot: the first of the terms that
/// is not met.
pub open spec fn creation_error(
    escrow: Escrow,
    seller: Identity,
    buyer: Identity,
    amount: u64,
    seller_waiting_time: i64,
) -> Option<SolanaErrorCode> {
    if amount == 0 {
        Some(SolanaErrorCode::InvalidAmount)
    } else if buyer == seller {
        Some(SolanaErrorCode::InvalidBuyer)
    } else if !waiting_time_allowed(seller_waiting_time) {
        Some(SolanaErrorCode::InvalidSellerWaitingTime)
    } else if escrow.exists {
        Some(SolanaErrorCode::OrderAlreadyExists)
    } else {
        None
    }
}

/// The trade fee and the deadline of a new order fit their fields, and where
/// the order is funded at once, principal and fee together fit a balance.
pub open spec fn terms_fit(
    fee_bps: u64,
    amount: u64,
    seller_waiting_time: i64,
    now: i64,
    funded: bool,
) -> bool {
    &&& trade_fee(amount, fee_bps) <= u64::MAX
    &&& i64::MIN <= now + seller_waiting_time <= i64::MAX
    &&& funded ==> amount + trade_fee(amount, fee_bps) <= u64::MAX
}

/// The record of a new order. The two marks of who paid a dispute stake stay
/// as the record had them.
pub open spec fn created(
    prior: Escrow,
    fee_bps: u64,
    seller: Identity,
    buyer: Identity,
    partner: Identity,
    token: Identity,
    amount: u64,
    seller_waiting_time: i64,
    automatic_escrow: bool,
    now: i64,
) -> Escrow {
    Escrow {
        exists: true,
        seller_can_cancel_after: (now + seller_waiting_time) as i64,
        fee: trade_fee(amount, fee_bps) as u64,
        dispute: false,
        partner,
        open_peer_fee: open_peer_fee(amount) as u64,
        automatic_escrow,
        amount,
        token,
        seller,
        buyer,
        seller_paid_dispute: prior.seller_paid_dispute,
        buyer_paid_dispute: prior.buyer_paid_dispute,
    }
}

/// `actions`, and after them the opening of `owner`'s holding where it has
/// yet to be created.
pub open spec fn with_holding(actions: Seq<Action>, holding: HoldingAccount, owner: Party) -> Seq<
    Action,
> {
    if holding.is_empty {
        actions.push(Action::OpenHolding(owner))
    } else {
        actions
    }
}

/// One movement of `amount` of `token` into the order's custody.
pub open spec fn funding(from: Party, amount: u64, token: Identity, authority: Authority) -> Action {
    Action::Move(Transfer { from, to: Party::Order, amount, token, authority })
}

/// Tests the terms of a creation: the first that is not met, if any.
pub fn creation_refusal(
    escrow: &Escrow,
    seller: &Identity,
    buyer: &Identity,
    amount: u64,
    seller_waiting_time: i64,
) -> (r: Option<SolanaErrorCode>)
    ensures
        r == creation_error(*escrow, *seller, *buyer, amount, seller_waiting_time),
{
    if amount == 0 {
        Some(SolanaErrorCode::InvalidAmount)
    } else if buyer.same(seller) {
        Some(SolanaErrorCode::InvalidBuyer)
    } else if seller_waiting_time < MIN_SELLER_WAITING_TIME || seller_waiting_time
        > MAX_SELLER_WAITING_TIME {
        Some(SolanaErrorCode::InvalidSellerWaitingTime)
    } else if escrow.exists {
        Some(SolanaErrorCode::OrderAlreadyExists)
    } else {
        None
    }
}

/// Tests that the trade fee and the deadline of a new order fit their
/// fields, and for an order that is funded at once, that principal and fee
/// together fit a balance.
pub fn order_fits(
    fee_bps: u64,
    amount: u64,
    seller_waiting_time: i64,
    now: i64,
    funded: bool,
) -> (r: bool)
    ensures
        r == terms_fit(fee_bps, amount, seller_waiting_time, now, funded),
{
    let fee = match checked_bps_share(amount, fee_bps) {
        Some(fee) => fee,
        None => {
            return false;
        },
    };
    if now.checked_add(seller_waiting_time).is_none() {
        return false;
    }
    !funded || checked_total(amount, fee).is_some()
}

fn new_order(
    prior: &Escrow,
    fee_bps: u64,
    seller: Identity,
    buyer: Identity,
    partner: Identity,
    token: Identity,
    amount: u64,
    seller_waiting_time: i64,
    automatic_escrow: bool,
    now: i64,
) -> (r: Escrow)
    requires
        terms_fit(fee_bps, amount, seller_waiting_time, now, automatic_escrow),
    ensures
        r == created(
            *prior,
            fee_bps,
            seller,
            buyer,
            partner,
            token,
            amount,
            seller_waiting_time,
            automatic_escrow,
            now,
        ),
{
    proof {
        lemma_open_peer_fee_fits(amount);
    }
    let fee = checked_bps_share(amount, fee_bps).unwrap();
    let open_peer_fee = checked_bps_share(amount, OPEN_PEER_FEE_BPS).unwrap();
    Escrow {
        exists: true,
        seller_can_cancel_after: now + seller_waiting_time,
        fee,
        dispute: false,
        partner,
        open_peer_fee,
        automatic_escrow,
        amount,
        token,
        seller,
        buyer,
        seller_paid_dispute: prior.seller_paid_dispute,
        buyer_paid_dispute: prior.buyer_paid_dispute,
    }
}

pub(crate) fn open_if_empty(actions: &mut Vec<Action>, holding: &HoldingAccount, owner: Party)
    ensures
        final(actions)@ == with_holding(old(actions)@, *holding, owner),
{
    if holding.is_empty {
        actions.push(Action::OpenHolding(owner));
    }
}

/// Why `create_escrow_token` refuses, if it does.
pub open spec fn create_escrow_token_error(
    ctx: CreateEscrowToken,
    amount: u64,
    seller_waiting_time: i64,
    automatic_escrow: bool,
    from_wallet: bool,
) -> Option<SolanaErrorCode> {
    match creation_error(ctx.escrow, ctx.seller, ctx.buyer, amount, seller_waiting_time) {
        Some(e) => Some(e),
        None => if automatic_escrow && !from_wallet && ctx.escrow_state_token_account is None {
            Some(SolanaErrorCode::AccountError)
        } else {
            None
        },
    }
}

/// What `create_escrow_token` asks of the host: nothing unless the order is
/// funded at once; else the holdings that are missing, then principal and fee
/// from the seller's wallet under the seller's signature, or from the pool
/// under the registry's authority.
pub open spec fn create_escrow_token_actions(
    ctx: CreateEscrowToken,
    amount: u64,
    automatic_escrow: bool,
    token: Identity,
    from_wallet: bool,
) -> Seq<Action> {
    let total = (amount + trade_fee(amount, ctx.escrow_state.fee_bps)) as u64;
    if !automatic_escrow {
        Seq::empty()
    } else if from_wallet {
        with_holding(Seq::empty(), ctx.escrow_token_account, Party::Order).push(
            funding(Party::Seller, total, token, Authority::Personal(Party::Seller)),
        )
    } else {
        with_holding(
            with_holding(Seq::empty(), ctx.escrow_token_account, Party::Order),
            ctx.escrow_state_token_account.unwrap(),
            Party::Registry,
        ).push(funding(Party::Registry, total, token, Authority::Registry))
    }
}

/// Creates a token order on the seller's initiative.
///
/// Refused with the first failing term: a zero amount, a buyer who is the
/// seller, a waiting time outside fifteen minutes to a day, an order that
/// exists already, or a pool holding that was not handed over though the pool
/// is to fund the order. A refusal leaves the record as it was.
pub fn create_escrow_token(
    ctx: &mut CreateEscrowToken,
    order_id: String,
    amount: u64,
    seller_waiting_time: i64,
    automatic_escrow: bool,
    token: Identity,
    from_wallet: bool,
    now: i64,
) -> (r: Result<Outcome<EscrowCreated>, SolanaErrorCode>)
    requires
        create_escrow_token_error(
            *old(ctx),
            amount,
            seller_waiting_time,
            automatic_escrow,
            from_wallet,
        ) is None ==> terms_fit(
            old(ctx).escrow_state.fee_bps,
            amount,
            seller_waiting_time,
            now,
            automatic_escrow,
        ),
    ensures
        match r {
            Ok(out) => {
                &&& create_escrow_token_error(
                    *old(ctx),
                    amount,
                    seller_waiting_time,
                    automatic_escrow,
                    from_wallet,
                ) is None
                &&& *final(ctx) == (CreateEscrowToken {
                    escrow: created(
                        old(ctx).escrow,
                        old(ctx).escrow_state.fee_bps,
                        old(ctx).seller,
                        old(ctx).buyer,
                        old(ctx).partner,
                        token,
                        amount,
                        seller_waiting_time,
                        automatic_escrow,
                        now,
                    ),
                    ..*old(ctx)
                })
                &&& out.actions@ == create_escrow_token_actions(
                    *old(ctx),
                    amount,
                    automatic_escrow,
                    token,
                    from_wallet,
                )
                &&& out.event.order_id@ == order_id@
            },
            Err(e) => {
                &&& create_escrow_token_error(
                    *old(ctx),
                    amount,
                    seller_waiting_time,
                    automatic_escrow,
                    from_wallet,
                ) == Some(e)
                &&& *final(ctx) == *old(ctx)
            },
        },
{
    if let Some(e) = creation_refusal(&ctx.escrow, &ctx.seller, &ctx.buyer, amount, seller_waiting_time) {
        return Err(e);
    }
    if automatic_escrow && !from_wallet && ctx.escrow_state_token_account.is_none() {
        return Err(SolanaErrorCode::AccountError);
    }
    let order = new_order(
        &ctx.escrow,
        ctx.escrow_state.fee_bps,
        ctx.seller,
        ctx.buyer,
        ctx.partner,
        token,
        amount,
        seller_waiting_time,
        automatic_escrow,
        now,
    );
    let mut actions: Vec<Action> = Vec::new();
    if automatic_escrow {
        let total: u64 = amount + order.fee;
        open_if_empty(&mut actions, &ctx.escrow_token_account, Party::Order);
        if from_wallet {
            actions.push(
                Action::Move(
                    Transfer {
                        from: Party::Seller,
                        to: Party::Order,
                        amount: total,
                        token,
                        authority: Authority::Personal(Party::Seller),
                    },
                ),
            );
        } else {
            let pool = ctx.escrow_state_token_account.unwrap();
            open_if_empty(&mut actions, &pool, Party::Registry);
            actions.push(
                Action::Move(
                    Transfer {
                        from: Party::Registry,
                        to: Party::Order,
                        amount: total,
                        token,
                        authority: Authority::Registry,
                    },
                ),
            );
        }
    }
    ctx.escrow = order;
    Ok(Outcome { actions, event: EscrowCreated { order_id } })
}


/// What `create_escrow_sol` asks of the host: where the order is funded at
/// once, principal and fee from the seller under the seller's signature.
pub open spec fn create_escrow_sol_actions(
    ctx: CreateEscrowSOL,
    amount: u64,
    automatic_escrow: bool,
) -> Seq<Action> {
    let total = (amount + trade_fee(amount, ctx.escrow_state.fee_bps)) as u64;
    if automatic_escrow {
        seq![funding(Party::Seller, total, Identity::zero(), Authority::Personal(Party::Seller))]
    } else {
        Seq::empty()
    }
}

/// Creates a native-currency order on the seller's initiative.
///
/// Refused with the first failing term: a zero amount, a buyer who is the
/// seller, a waiting time outside fifteen minutes to a day, or an order that
/// exists already. A refusal leaves the record as it was.
pub fn create_escrow_sol(
    ctx: &mut CreateEscrowSOL,
    order_id: String,
    amount: u64,
    seller_waiting_time: i64,
    automatic_escrow: bool,
    now: i64,
) -> (r: Result<Outcome<EscrowCreated>, SolanaErrorCode>)
    requires
        creation_error(old(ctx).escrow, old(ctx).seller, old(ctx).buyer, amount, seller_waiting_time) is None ==> terms_fit(
            old(ctx).escrow_state.fee_bps,
            amount,
            seller_waiting_time,
            now,
            automatic_escrow,
        ),
    ensures
        match r {
            Ok(out) => {
                &&& creation_error(old(ctx).escrow, old(ctx).seller, old(ctx).buyer, amount, seller_waiting_time) is None
                &&& *final(ctx) == (CreateEscrowSOL {
                    escrow: created(
                        old(ctx).escrow,
                        old(ctx).escrow_state.fee_bps,
                        old(ctx).seller,
                        old(ctx).buyer,
                        old(ctx).partner,
                        Identity::zero(),
                        amount,
                        seller_waiting_time,
                        automatic_escrow,
                        now,
                    ),
                    ..*old(ctx)
                })
                &&& out.actions@ == create_escrow_sol_actions(*old(ctx), amount, automatic_escrow)
                &&& out.event.order_id@ == order_id@
            },
            Err(e) => {
                &&& creation_error(old(ctx).escrow, old(ctx).seller, old(ctx).buyer, amount, seller_waiting_time) == Some(e)
                &&& *final(ctx) == *old(ctx)
            },
        },
{
    if let Some(e) = creation_refusal(&ctx.escrow, &ctx.seller, &ctx.buyer, amount, seller_waiting_time) {
        return Err(e);
    }
    let token = Identity::default();
    let order = new_order(
        &ctx.escrow,
        ctx.escrow_state.fee_bps,
        ctx.seller,
        ctx.buyer,
        ctx.partner,
        token,
        amount,
        seller_waiting_time,
        automatic_escrow,
        now,
    );
    let mut actions: Vec<Action> = Vec::new();
    if automatic_escrow {
        let total: u64 = amount + order.fee;
        actions.push(
            Action::Move(
                Transfer { from: Party::Seller, to: Party::Order, amount: total, token, authority: Authority::Personal(Party::Seller) },
            ),
        );
    }
    ctx.escrow = order;
    Ok(Outcome { actions, event: EscrowCreated { order_id } })
}

/// What `create_escrow_sol_buyer` asks of the host: where the order is funded
/// at once, principal and fee out of the seller's pool, under the registry's
/// authority.
pub open spec fn create_escrow_sol_buyer_actions(
    ctx: CreateEscrowSOLBuyer,
    amount: u64,
    automatic_escrow: bool,
) -> Seq<Action> {
    let total = (amount + trade_fee(amount, ctx.escrow_state.fee_bps)) as u64;
    if automatic_escrow {
        seq![funding(Party::Registry, total, Identity::zero(), Authority::Registry)]
    } else {
        Seq::empty()
    }
}

/// Creates a native-currency order on the buyer's initiative; the seller's
/// pool funds it.
///
/// Refused on the same terms as `create_escrow_sol`.
pub fn create_escrow_sol_buyer(
    ctx: &mut CreateEscrowSOLBuyer,
    order_id: String,
    amount: u64,
    seller_waiting_time: i64,
    automatic_escrow: bool,
    now: i64,
) -> (r: Result<Outcome<EscrowCreated>, SolanaErrorCode>)
    requires
        creation_error(old(ctx).escrow, old(ctx).seller, old(ctx).buyer, amount, seller_waiting_time) is None ==> terms_fit(
            old(ctx).escrow_state.fee_bps,
            amount,
            seller_waiting_time,
            now,
            automatic_escrow,
        ),
    ensures
        match r {
            Ok(out) => {
                &&& creation_error(old(ctx).escrow, old(ctx).seller, old(ctx).buyer, amount, seller_waiting_time) is None
                &&& *final(ctx) == (CreateEscrowSOLBuyer {
                    escrow: created(
                        old(ctx).escrow,
                        old(ctx).escrow_state.fee_bps,
                        old(ctx).seller,
                        old(ctx).buyer,
                        old(ctx).partner,
                        Identity::zero(),
                        amount,
                        seller_waiting_time,
                        automatic_escrow,
                        now,
                    ),
                    ..*old(ctx)
                })
                &&& out.actions@ == create_escrow_sol_buyer_actions(*old(ctx), amount, automatic_escrow)
                &&& out.event.order_id@ == order_id@
            },
            Err(e) => {
                &&& creation_error(old(ctx).escrow, old(ctx).seller, old(ctx).buyer, amount, seller_waiting_time) == Some(e)
                &&& *final(ctx) == *old(ctx)
            },
        },
{
    if let Some(e) = creation_refusal(&ctx.escrow, &ctx.seller, &ctx.buyer, amount, seller_waiting_time) {
        return Err(e);
    }
    let token = Identity::default();
    let order = new_order(
        &ctx.escrow,
        ctx.escrow_state.fee_bps,
        ctx.seller,
        ctx.buyer,
        ctx.partner,
        token,
        amount,
        seller_waiting_time,
        automatic_escrow,
        now,
    );
    let mut actions: Vec<Action> = Vec::new();
    if automatic_escrow {
        let total: u64 = amount + order.fee;
        actions.push(
            Action::Move(
                Transfer { from: Party::Registry, to: Party::Order, amount: total, token, authority: Authority::Registry },
            ),
        );
    }
    ctx.escrow = order;
    Ok(Outcome { actions, event: EscrowCreated { order_id } })
}

/// Why `create_escrow_token_buyer` refuses, if it does.
pub open spec fn create_escrow_token_buyer_error(
    ctx: CreateEscrowTokenBuyer,
    amount: u64,
    seller_waiting_time: i64,
    automatic_escrow: bool,
) -> Option<SolanaErrorCode> {
    match creation_error(ctx.escrow, ctx.seller, ctx.buyer, amount, seller_waiting_time) {
        Some(e) => Some(e),
        None => if automatic_escrow && ctx.escrow_state_token_account is None {
            Some(SolanaErrorCode::AccountError)
        } else {
            None
        },
    }
}

/// What `create_escrow_token_buyer` asks of the host: where the order is
/// funded at once, the order's holding if it is missing, then principal and
/// fee out of the pool under the registry's authority.
pub open spec fn create_escrow_token_buyer_actions(
    ctx: CreateEscrowTokenBuyer,
    amount: u64,
    automatic_escrow: bool,
    token: Identity,
) -> Seq<Action> {
    let total = (amount + trade_fee(amount, ctx.escrow_state.fee_bps)) as u64;
    if automatic_escrow {
        with_holding(Seq::empty(), ctx.escrow_token_account, Party::Order).push(
            funding(Party::Registry, total, token, Authority::Registry),
        )
    } else {
        Seq::empty()
    }
}

/// Creates a token order on the buyer's initiative; the seller's pool funds
/// it.
///
/// Refused on the same terms as `create_escrow_sol`, and where the pool is to
/// fund the order at once but its holding was not handed over.
pub fn create_escrow_token_buyer(
    ctx: &mut CreateEscrowTokenBuyer,
    order_id: String,
    amount: u64,
    seller_waiting_time: i64,
    automatic_escrow: bool,
    token: Identity,
    now: i64,
) -> (r: Result<Outcome<EscrowCreated>, SolanaErrorCode>)
    requires
        create_escrow_token_buyer_error(*old(ctx), amount, seller_waiting_time, automatic_escrow) is None ==> terms_fit(
            old(ctx).escrow_state.fee_bps,
            amount,
            seller_waiting_time,
            now,
            automatic_escrow,
        ),
    ensures
        match r {
            Ok(out) => {
                &&& create_escrow_token_buyer_error(*old(ctx), amount, seller_waiting_time, automatic_escrow) is None
                &&& *final(ctx) == (CreateEscrowTokenBuyer {
                    escrow: created(
                        old(ctx).escrow,
                        old(ctx).escrow_state.fee_bps,
                        old(ctx).seller,
                        old(ctx).buyer,
                        old(ctx).partner,
                        token,
                        amount,
                        seller_waiting_time,
                        automatic_escrow,
                        now,
                    ),
                    ..*old(ctx)
                })
                &&& out.actions@ == create_escrow_token_buyer_actions(*old(ctx), amount, automatic_escrow, token)
                &&& out.event.order_id@ == order_id@
            },
            Err(e) => {
                &&& create_escrow_token_buyer_error(*old(ctx), amount, seller_waiting_time, automatic_escrow) == Some(e)
                &&& *final(ctx) == *old(ctx)
            },
        },
{
    if let Some(e) = creation_refusal(&ctx.escrow, &ctx.seller, &ctx.buyer, amount, seller_waiting_time) {
        return Err(e);
    }
    if automatic_escrow && ctx.escrow_state_token_account.is_none() {
        return Err(SolanaErrorCode::AccountError);
    }
    let order = new_order(
        &ctx.escrow,
        ctx.escrow_state.fee_bps,
        ctx.seller,
        ctx.buyer,
        ctx.partner,
        token,
        amount,
        seller_waiting_time,
        automatic_escrow,
        now,
    );
    let mut actions: Vec<Action> = Vec::new();
    if automatic_escrow {
        let total: u64 = amount + order.fee;
        open_if_empty(&mut actions, &ctx.escrow_token_account, Party::Order);
        actions.push(
            Action::Move(
                Transfer { from: Party::Registry, to: Party::Order, amount: total, token, authority: Authority::Registry },
            ),
        );
    }
    ctx.escrow = order;
    Ok(Outcome { actions, event: EscrowCreated { order_id } })
}

} // verus!
