//! The reasons for which an operation is refused.

use vstd::prelude::*;

verus! {

/// Why an operation was refused.
#[derive(Clone, Copy, Debug, PartialEq, Eq, Structural)]
pub enum SolanaErrorCode {
    InvalidAmount,
    InvalidSellerWaitingTime,
    EscrowNotFound,
    CannotOpenDisputeYet,
    InsufficientFundsForDispute,
    DisputeNotOpen,
    InvalidWinner,
    OrderAlreadyExists,
    InsufficientFunds,
    InvalidBuyer,
    CannotCancelYet,
    SerializationError,
    AlreadyInitialized,
    CannotReleaseFundsYet,
    InvalidFeeRecepient,
    InvalidDisputeInitiator,
    AccountError,
    InvalidArbitrator,
}

impl SolanaErrorCode {
    /// The text shown for each code.
    pub open spec fn spec_message(self) -> Seq<char> {
        match self {
            SolanaErrorCode::InvalidAmount => "Invalid amount"@,
            SolanaErrorCode::InvalidSellerWaitingTime => "Invalid seller waiting time"@,
            SolanaErrorCode::EscrowNotFound => "Escrow not found"@,
            SolanaErrorCode::CannotOpenDisputeYet => "Cannot open dispute yet"@,
            SolanaErrorCode::InsufficientFundsForDispute => "Insufficient funds for dispute"@,
            SolanaErrorCode::DisputeNotOpen => "Dispute not open"@,
            SolanaErrorCode::InvalidWinner => "Invalid winner"@,
            SolanaErrorCode::OrderAlreadyExists => "Order already exists"@,
            SolanaErrorCode::InsufficientFunds => "Insufficient funds"@,
            SolanaErrorCode::InvalidBuyer => "Invalid buyer"@,
            SolanaErrorCode::CannotCancelYet => "Cannot cancel yet"@,
            SolanaErrorCode::SerializationError => "Serialization error"@,
            SolanaErrorCode::AlreadyInitialized => "Already initialized"@,
            SolanaErrorCode::CannotReleaseFundsYet => "Cannot release funds as order is not marked as paid"@,
            SolanaErrorCode::InvalidFeeRecepient => "Invalid Fee Recepient"@,
            SolanaErrorCode::InvalidDisputeInitiator => "Invalid Dispute Initiator"@,
            SolanaErrorCode::AccountError => "You missed to pass one important account"@,
            SolanaErrorCode::InvalidArbitrator => "Invalid arbitrator"@,
        }
    }

    /// The text shown for this code.
    pub fn message(&self) -> (r: &'static str)
        ensures
            r@ == self.spec_message(),
    {
        match self {
            SolanaErrorCode::InvalidAmount => "Invalid amount",
            SolanaErrorCode::InvalidSellerWaitingTime => "Invalid seller waiting time",
            SolanaErrorCode::EscrowNotFound => "Escrow not found",
            SolanaErrorCode::CannotOpenDisputeYet => "Cannot open dispute yet",
            SolanaErrorCode::InsufficientFundsForDispute => "Insufficient funds for dispute",
            SolanaErrorCode::DisputeNotOpen => "Dispute not open",
            SolanaErrorCode::InvalidWinner => "Invalid winner",
            SolanaErrorCode::OrderAlreadyExists => "Order already exists",
            SolanaErrorCode::InsufficientFunds => "Insufficient funds",
            SolanaErrorCode::InvalidBuyer => "Invalid buyer",
            SolanaErrorCode::CannotCancelYet => "Cannot cancel yet",
            SolanaErrorCode::SerializationError => "Serialization error",
            SolanaErrorCode::AlreadyInitialized => "Already initialized",
            SolanaErrorCode::CannotReleaseFundsYet => "Cannot release funds as order is not marked as paid",
            SolanaErrorCode::InvalidFeeRecepient => "Invalid Fee Recepient",
            SolanaErrorCode::InvalidDisputeInitiator => "Invalid Dispute Initiator",
            SolanaErrorCode::AccountError => "You missed to pass one important account",
            SolanaErrorCode::InvalidArbitrator => "Invalid arbitrator",
        }
    }
}

} // verus!
