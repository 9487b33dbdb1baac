use p2p_escrow::accounts::CancelEscrow;
use p2p_escrow::creation::{creation_refusal, order_fits};
use p2p_escrow::error::SolanaErrorCode;
use p2p_escrow::identity::Identity;
use p2p_escrow::ledger::move_balance;
use p2p_escrow::records::{Escrow, EscrowState};
use p2p_escrow::settlement::seller_cancel_refusal;

fn who(n: u8) -> Identity {
    Identity::new([n; 32])
}

fn record(exists: bool, seller_can_cancel_after: i64) -> Escrow {
    Escrow {
        exists,
        seller_can_cancel_after,
        fee: 1,
        dispute: false,
        partner: who(9),
        open_peer_fee: 0,
        automatic_escrow: true,
        amount: 100,
        token: Identity::default(),
        seller: who(1),
        buyer: who(2),
        seller_paid_dispute: false,
        buyer_paid_dispute: false,
    }
}

fn settings() -> EscrowState {
    EscrowState {
        is_initialized: true,
        seller: who(1),
        fee_bps: 100,
        arbitrator: who(3),
        fee_recipient: who(4),
        fee_discount_nft: Identity::default(),
        dispute_fee: 0,
        deployer: Identity::default(),
    }
}

#[test]
fn creation_refusal_names_the_first_failing_term() {
    let fresh = record(false, 0);
    assert_eq!(creation_refusal(&fresh, &who(1), &who(2), 1, 900), None);
    assert_eq!(creation_refusal(&fresh, &who(1), &who(2), u64::MAX, 86_400), None);
    assert_eq!(
        creation_refusal(&fresh, &who(1), &who(2), 0, 900),
        Some(SolanaErrorCode::InvalidAmount)
    );
    assert_eq!(
        creation_refusal(&fresh, &who(1), &who(1), 1, 900),
        Some(SolanaErrorCode::InvalidBuyer)
    );
    assert_eq!(
        creation_refusal(&fresh, &who(1), &who(2), 1, 0),
        Some(SolanaErrorCode::InvalidSellerWaitingTime)
    );
    assert_eq!(
        creation_refusal(&record(true, 0), &who(1), &who(2), 1, 900),
        Some(SolanaErrorCode::OrderAlreadyExists)
    );
}

#[test]
fn order_fits_tests_fee_deadline_and_total() {
    assert!(order_fits(100, 1_000_000, 900, 10_000, true));
    // the product leaves 64 bits, the fee does not
    assert!(order_fits(2, u64::MAX, 900, 0, false));
    assert!(order_fits(10_000, u64::MAX, 900, 0, false));
    assert!(!order_fits(10_001, u64::MAX, 900, 0, false));
    // principal and fee together count only where funds move at once
    assert!(!order_fits(2, u64::MAX, 900, 0, true));
    assert!(order_fits(0, u64::MAX, 900, 0, true));
    assert!(order_fits(10_000, u64::MAX / 2, 900, 0, true));
    assert!(!order_fits(10_000, u64::MAX / 2 + 1, 900, 0, true));
    assert!(!order_fits(100, 5, 900, i64::MAX - 899, false));
    assert!(order_fits(100, 5, 900, i64::MAX - 900, false));
    assert!(order_fits(0, 1, i64::MIN, 0, false));
    assert!(!order_fits(0, 1, i64::MIN, -1, false));
}

#[test]
fn seller_cancel_refusal_follows_the_deadline() {
    let ctx = |escrow| CancelEscrow { escrow_state: settings(), escrow, seller: who(1) };
    assert_eq!(
        seller_cancel_refusal(&ctx(record(false, 50)), 100),
        Some(SolanaErrorCode::EscrowNotFound)
    );
    assert_eq!(
        seller_cancel_refusal(&ctx(record(true, 1)), 100),
        Some(SolanaErrorCode::CannotCancelYet)
    );
    assert_eq!(
        seller_cancel_refusal(&ctx(record(true, 0)), 100),
        Some(SolanaErrorCode::CannotCancelYet)
    );
    assert_eq!(
        seller_cancel_refusal(&ctx(record(true, 101)), 100),
        Some(SolanaErrorCode::CannotCancelYet)
    );
    assert_eq!(seller_cancel_refusal(&ctx(record(true, 100)), 100), None);
    assert_eq!(seller_cancel_refusal(&ctx(record(true, 2)), 100), None);
}

#[test]
fn move_balance_debits_and_credits_alike() {
    assert_eq!(move_balance(10, 5, 3), Some((7, 8)));
    assert_eq!(move_balance(10, 5, 10), Some((0, 15)));
    assert_eq!(move_balance(10, 5, 11), None);
    assert_eq!(move_balance(10, u64::MAX - 2, 3), None);
    assert_eq!(move_balance(10, u64::MAX - 3, 3), Some((7, u64::MAX)));
    assert_eq!(move_balance(0, 0, 0), Some((0, 0)));
}
