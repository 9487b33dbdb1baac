//! Fee arithmetic and the fixed terms of a trade.

use vstd::prelude::*;

verus! {

/// Basis points in a whole.
pub const BPS_DENOMINATOR: u64 = 10_000;

/// Basis points of the partner's referral fee.
pub const OPEN_PEER_FEE_BPS: u64 = 30;

/// The stake that opening a dispute costs, and that its resolution pays out twice.
pub const DISPUTE_FEE: u64 = 5_000_000;

/// Shortest time, in seconds, that a seller must wait before cancelling.
pub const MIN_SELLER_WAITING_TIME: i64 = 900;

/// Longest time, in seconds, that a seller may be made to wait before cancelling.
pub const MAX_SELLER_WAITING_TIME: i64 = 86_400;

/// The value of `seller_can_cancel_after` that records a confirmed payment.
pub const PAYMENT_CONFIRMED: i64 = 1;

/// The share of `amount` that `bps` basis points take, rounded down.
pub open spec fn bps_share(amount: int, bps: int) -> int {
    amount * bps / 10_000
}

/// The trade fee of an order: `amount * fee_bps / 10000`.
pub open spec fn trade_fee(amount: u64, fee_bps: u64) -> int {
    bps_share(amount as int, fee_bps as int)
}

/// The partner's referral fee of an order: `amount * 30 / 10000`.
pub open spec fn open_peer_fee(amount: u64) -> int {
    bps_share(amount as int, 30)
}

/// Whether a waiting time lies between fifteen minutes and a day.
pub open spec fn waiting_time_allowed(seconds: i64) -> bool {
    900 <= seconds <= 86_400
}

/// The referral fee never exceeds the amount, and so always fits its field.
pub proof fn lemma_open_peer_fee_fits(amount: u64)
    ensures
        0 <= open_peer_fee(amount) <= amount,
{
}

/// Computes `amount * bps / 10000`, or `None` when the share leaves `u64`. The
/// product is taken in 128 bits, so that it never decides.
pub fn checked_bps_share(amount: u64, bps: u64) -> (r: Option<u64>)
    ensures
        r.is_some() <==> bps_share(amount as int, bps as int) <= u64::MAX,
        r.is_some() ==> r.unwrap() == bps_share(amount as int, bps as int),
{
    assert(amount * bps <= u64::MAX * u64::MAX) by (nonlinear_arith);
    let wide_amount: u128 = amount as u128;
    let wide_bps: u128 = bps as u128;
    let share: u128 = wide_amount * wide_bps / 10_000;
    if share > u64::MAX as u128 {
        None
    } else {
        Some(share as u64)
    }
}

/// Computes `amount + fee`, or `None` when the sum leaves `u64`.
pub fn checked_total(amount: u64, fee: u64) -> (r: Option<u64>)
    ensures
        r.is_some() <==> amount + fee <= u64::MAX,
        r.is_some() ==> r.unwrap() == amount + fee,
{
    amount.checked_add(fee)
}

} // verus!
