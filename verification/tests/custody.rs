use anchor_lang::prelude::Pubkey;
use p2p_escrow::accounts::{
    DepositToEscrow, DepositToEscrowState, HoldingAccount, Initialize, ReleaseFunds,
    WithdrawBalance,
};
use p2p_escrow::authority::find_order_bump;
use p2p_escrow::error::SolanaErrorCode;
use p2p_escrow::identity::Identity;
use p2p_escrow::ledger::{Action, Authority, Party, Transfer};
use p2p_escrow::records::{Escrow, EscrowState};
use p2p_escrow::registry::{deposit_to_escrow_state, initialize, withdraw_balance};
use p2p_escrow::settlement::{deposit_to_escrow, release_funds, release_funds_with_bump};

fn party(n: u8) -> Identity {
    Identity::new([n; 32])
}

fn blank_registry() -> EscrowState {
    EscrowState {
        is_initialized: false,
        seller: Identity::default(),
        fee_bps: 0,
        arbitrator: Identity::default(),
        fee_recipient: Identity::default(),
        fee_discount_nft: Identity::default(),
        dispute_fee: 0,
        deployer: party(8),
    }
}

fn pool(fee_bps: u64) -> EscrowState {
    EscrowState {
        is_initialized: true,
        seller: party(1),
        fee_bps,
        arbitrator: party(3),
        fee_recipient: party(4),
        fee_discount_nft: Identity::default(),
        dispute_fee: 0,
        deployer: Identity::default(),
    }
}

fn unfunded(token: Identity) -> Escrow {
    Escrow {
        exists: true,
        seller_can_cancel_after: 5_000,
        fee: 70,
        dispute: false,
        partner: party(9),
        open_peer_fee: 21,
        automatic_escrow: false,
        amount: 7_000,
        token,
        seller: party(1),
        buyer: party(2),
        seller_paid_dispute: false,
        buyer_paid_dispute: false,
    }
}

fn deposit_ctx(token: Identity) -> DepositToEscrow {
    DepositToEscrow {
        escrow_state: pool(100),
        escrow_state_lamports: 7_070,
        escrow: unfunded(token),
        seller: party(1),
        mint_account: Some(token),
        escrow_state_token_account: Some(HoldingAccount { is_empty: false }),
        seller_token_account: Some(HoldingAccount { is_empty: false }),
        escrow_token_account: Some(HoldingAccount { is_empty: true }),
    }
}

fn transfer(from: Party, to: Party, amount: u64, token: Identity, authority: Authority) -> Action {
    Action::Move(Transfer { from, to, amount, token, authority })
}

#[test]
fn initialize_configures_once() {
    let mut ctx = Initialize {
        escrow_state: blank_registry(),
        seller: party(1),
        arbitrator: party(3),
        fee_recipient: party(4),
    };
    assert_eq!(initialize(&mut ctx, 100, 5_000, party(6)), Ok(()));
    assert_eq!(
        ctx.escrow_state,
        EscrowState {
            is_initialized: true,
            seller: party(1),
            fee_bps: 100,
            arbitrator: party(3),
            fee_recipient: party(4),
            fee_discount_nft: party(6),
            dispute_fee: 5_000,
            deployer: party(8),
        }
    );
    let before = ctx;
    assert_eq!(
        initialize(&mut ctx, 1, 2, party(7)),
        Err(SolanaErrorCode::AlreadyInitialized)
    );
    assert_eq!(ctx, before);
}

#[test]
fn pool_deposit_adds_the_flat_fee() {
    let ctx = DepositToEscrowState {
        escrow_state: pool(100),
        seller: party(1),
        seller_lamports: 1_100,
        escrow_state_token_account: HoldingAccount { is_empty: true },
    };
    assert_eq!(
        deposit_to_escrow_state(&ctx, 1_000, Identity::default()),
        Ok(vec![transfer(
            Party::Seller,
            Party::Registry,
            1_100,
            Identity::default(),
            Authority::Program
        )])
    );
    assert_eq!(
        deposit_to_escrow_state(&ctx, 1_001, Identity::default()),
        Err(SolanaErrorCode::InsufficientFunds)
    );
    assert_eq!(
        deposit_to_escrow_state(&ctx, 0, Identity::default()),
        Err(SolanaErrorCode::InvalidAmount)
    );
}

#[test]
fn pool_token_deposit_opens_the_pool_holding() {
    let mut ctx = DepositToEscrowState {
        escrow_state: pool(100),
        seller: party(1),
        seller_lamports: 0,
        escrow_state_token_account: HoldingAccount { is_empty: true },
    };
    assert_eq!(
        deposit_to_escrow_state(&ctx, 1_000, party(50)),
        Ok(vec![
            Action::OpenHolding(Party::Registry),
            transfer(
                Party::Seller,
                Party::Registry,
                1_100,
                party(50),
                Authority::Personal(Party::Seller)
            ),
        ])
    );
    ctx.escrow_state_token_account = HoldingAccount { is_empty: false };
    assert_eq!(
        deposit_to_escrow_state(&ctx, 1_000, party(50)),
        Ok(vec![transfer(
            Party::Seller,
            Party::Registry,
            1_100,
            party(50),
            Authority::Personal(Party::Seller)
        )])
    );
    assert_eq!(
        deposit_to_escrow_state(&ctx, 0, party(50)),
        Err(SolanaErrorCode::InvalidAmount)
    );
}

#[test]
fn withdrawal_moves_the_amount_to_the_seller() {
    let ctx = WithdrawBalance { escrow_state: pool(100), seller: party(1) };
    assert_eq!(
        withdraw_balance(&ctx, 0, Identity::default()),
        Err(SolanaErrorCode::InvalidAmount)
    );
    assert_eq!(
        withdraw_balance(&ctx, 12, Identity::default()),
        Ok(vec![transfer(
            Party::Registry,
            Party::Seller,
            12,
            Identity::default(),
            Authority::Program
        )])
    );
    assert_eq!(
        withdraw_balance(&ctx, u64::MAX, party(50)),
        Ok(vec![transfer(
            Party::Registry,
            Party::Seller,
            u64::MAX,
            party(50),
            Authority::Personal(Party::Seller)
        )])
    );
}

#[test]
fn order_deposit_moves_what_the_order_records() {
    let ctx = deposit_ctx(Identity::default());
    assert_eq!(
        deposit_to_escrow(&ctx, "o".to_string(), 1, Identity::default(), true),
        Ok(vec![transfer(
            Party::Registry,
            Party::Order,
            7_070,
            Identity::default(),
            Authority::Registry
        )])
    );
    assert_eq!(
        deposit_to_escrow(&ctx, "o".to_string(), 999_999, Identity::default(), false),
        Ok(vec![transfer(
            Party::Seller,
            Party::Order,
            7_070,
            Identity::default(),
            Authority::Personal(Party::Seller)
        )])
    );
    assert_eq!(
        deposit_to_escrow(&ctx, "o".to_string(), 0, Identity::default(), true),
        Err(SolanaErrorCode::InvalidAmount)
    );
    assert_eq!(
        deposit_to_escrow(&ctx, "o".to_string(), 0, Identity::default(), false),
        Err(SolanaErrorCode::InvalidAmount)
    );
}

#[test]
fn native_order_deposit_from_the_pool_needs_a_covering_pool() {
    let mut ctx = deposit_ctx(Identity::default());
    ctx.escrow_state_lamports = 7_069;
    assert_eq!(
        deposit_to_escrow(&ctx, "o".to_string(), 1, Identity::default(), true),
        Err(SolanaErrorCode::InsufficientFunds)
    );
    ctx.escrow_state_lamports = 7_070;
    assert!(deposit_to_escrow(&ctx, "o".to_string(), 1, Identity::default(), true).is_ok());
}

#[test]
fn native_order_deposit_from_the_seller_does_not_look_at_the_pool() {
    let mut ctx = deposit_ctx(Identity::default());
    ctx.escrow_state_lamports = 0;
    assert_eq!(
        deposit_to_escrow(&ctx, "o".to_string(), 1, Identity::default(), false),
        Ok(vec![transfer(
            Party::Seller,
            Party::Order,
            7_070,
            Identity::default(),
            Authority::Personal(Party::Seller)
        )])
    );
}

#[test]
fn token_order_deposit_opens_the_order_holding() {
    let ctx = deposit_ctx(party(50));
    assert_eq!(
        deposit_to_escrow(&ctx, "o".to_string(), 5, party(50), true),
        Ok(vec![
            Action::OpenHolding(Party::Order),
            transfer(Party::Registry, Party::Order, 7_070, party(50), Authority::Registry),
        ])
    );
    let mut open = deposit_ctx(party(50));
    open.escrow_token_account = Some(HoldingAccount { is_empty: false });
    open.mint_account = None;
    open.escrow_state_token_account = None;
    assert_eq!(
        deposit_to_escrow(&open, "o".to_string(), 5, party(50), false),
        Ok(vec![transfer(
            Party::Seller,
            Party::Order,
            7_070,
            party(50),
            Authority::Personal(Party::Seller)
        )])
    );
}

#[test]
fn token_order_deposit_needs_its_accounts() {
    let mut ctx = deposit_ctx(party(50));
    ctx.escrow_token_account = None;
    assert_eq!(
        deposit_to_escrow(&ctx, "o".to_string(), 5, party(50), true),
        Err(SolanaErrorCode::AccountError)
    );
    let mut ctx = deposit_ctx(party(50));
    ctx.mint_account = None;
    assert_eq!(
        deposit_to_escrow(&ctx, "o".to_string(), 5, party(50), true),
        Err(SolanaErrorCode::AccountError)
    );
    let mut ctx = deposit_ctx(party(50));
    ctx.escrow_state_token_account = None;
    assert_eq!(
        deposit_to_escrow(&ctx, "o".to_string(), 5, party(50), true),
        Err(SolanaErrorCode::AccountError)
    );
    let mut ctx = deposit_ctx(party(50));
    ctx.seller_token_account = None;
    assert_eq!(
        deposit_to_escrow(&ctx, "o".to_string(), 5, party(50), false),
        Err(SolanaErrorCode::AccountError)
    );
}

fn token_release(order_id_program: Identity) -> ReleaseFunds {
    let mut escrow = unfunded(party(50));
    escrow.seller_can_cancel_after = 1;
    ReleaseFunds {
        program_id: order_id_program,
        escrow_state: pool(100),
        escrow,
        seller: party(1),
        buyer: party(2),
        fee_recipient: party(4),
        fee_recipient_token_account: Some(HoldingAccount { is_empty: false }),
        escrow_token_account: Some(HoldingAccount { is_empty: false }),
        buyer_token_account: Some(HoldingAccount { is_empty: false }),
    }
}

#[test]
fn order_bump_is_the_one_the_host_derives() {
    let program = Pubkey::new_from_array([7u8; 32]);
    for order_id in ["order-1", "order-2", "", "7f3c", "a much longer order name"] {
        let (_, bump) = Pubkey::find_program_address(&[b"escrow", order_id.as_bytes()], &program);
        assert_eq!(find_order_bump(order_id, &party(7)), Some(bump));
    }
    let (_, other) = Pubkey::find_program_address(
        &[b"escrow", b"order-1"],
        &Pubkey::new_from_array([8u8; 32]),
    );
    assert_eq!(find_order_bump("order-1", &party(8)), Some(other));
}

#[test]
fn order_identifier_longer_than_a_seed_has_no_address() {
    let long = "x".repeat(33);
    assert_eq!(find_order_bump(&long, &party(7)), None);
    assert!(find_order_bump(&"x".repeat(32), &party(7)).is_some());
}

#[test]
fn token_release_is_signed_with_the_order_bump() {
    let program = Pubkey::new_from_array([7u8; 32]);
    let (_, bump) = Pubkey::find_program_address(&[b"escrow", b"order-1"], &program);
    let mut ctx = token_release(party(7));
    let out = release_funds(&mut ctx, "order-1".to_string()).unwrap().unwrap();
    assert_eq!(
        out.actions,
        vec![
            transfer(Party::Order, Party::Buyer, 7_000, party(50), Authority::Order(bump)),
            transfer(Party::Order, Party::FeeRecipient, 70, party(50), Authority::Order(bump)),
        ]
    );
    assert!(!ctx.escrow.exists);
    assert_eq!(out.event.order_id, "order-1");
}

#[test]
fn token_release_without_an_address_does_nothing() {
    let mut ctx = token_release(party(7));
    let before = ctx;
    assert!(release_funds(&mut ctx, "y".repeat(40)).is_none());
    assert_eq!(ctx, before);
    ctx.escrow.seller_can_cancel_after = 2;
    assert_eq!(
        release_funds(&mut ctx, "y".repeat(40)).unwrap().unwrap_err(),
        SolanaErrorCode::CannotReleaseFundsYet
    );
}

#[test]
fn token_release_needs_its_holdings() {
    let mut ctx = token_release(party(7));
    ctx.buyer_token_account = None;
    let before = ctx;
    assert_eq!(
        release_funds(&mut ctx, "order-1".to_string()).unwrap().unwrap_err(),
        SolanaErrorCode::AccountError
    );
    assert_eq!(ctx, before);
    let mut ctx = token_release(party(7));
    ctx.escrow_token_account = None;
    assert_eq!(
        release_funds_with_bump(&mut ctx, "order-1".to_string(), 9).unwrap_err(),
        SolanaErrorCode::AccountError
    );
    let mut ctx = token_release(party(7));
    ctx.fee_recipient_token_account = None;
    assert_eq!(
        release_funds_with_bump(&mut ctx, "order-1".to_string(), 9).unwrap_err(),
        SolanaErrorCode::AccountError
    );
    let mut ctx = token_release(party(7));
    let out = release_funds_with_bump(&mut ctx, "order-1".to_string(), 9).unwrap();
    assert_eq!(
        out.actions,
        vec![
            transfer(Party::Order, Party::Buyer, 7_000, party(50), Authority::Order(9)),
            transfer(Party::Order, Party::FeeRecipient, 70, party(50), Authority::Order(9)),
        ]
    );
}
