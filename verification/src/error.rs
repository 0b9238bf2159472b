//! The ways in which a call on the paymaster can be refused.

use crate::uint::U256;
use vstd::prelude::*;

verus! {

/// Why a call was refused. A refused call changes nothing.
#[derive(Clone, Copy, Debug, PartialEq, Eq, Structural)]
pub enum PaymasterError {
    /// The caller is not the identity the operation is reserved for.
    Unauthorized,
    /// `initialize` was called on a paymaster that is already set up.
    AlreadyInitialized,
    /// The paymaster has not been set up yet.
    NotInitialized,
    /// The paymaster is paused.
    ContractPaused,
    /// The account holds less than the amount asked for.
    InsufficientBalance,
    /// The stable-asset transfer did not go through.
    TransferFailed,
    /// A deposit of zero.
    InvalidAmount,
    /// The request itself is not acceptable, such as handing ownership to
    /// the null identity.
    InvalidOperation,
    /// A sum or product does not fit in 256 bits.
    ArithmeticOverflow,
}

/// What each refusal is called in words.
pub open spec fn message_of(e: PaymasterError) -> Seq<char> {
    match e {
        PaymasterError::Unauthorized => "Unauthorized"@,
        PaymasterError::AlreadyInitialized => "Already initialized"@,
        PaymasterError::NotInitialized => "Not initialized"@,
        PaymasterError::ContractPaused => "Contract paused"@,
        PaymasterError::InsufficientBalance => "Insufficient balance"@,
        PaymasterError::TransferFailed => "Transfer failed"@,
        PaymasterError::InvalidAmount => "Amount must be greater than zero"@,
        PaymasterError::InvalidOperation => "Invalid operation"@,
        PaymasterError::ArithmeticOverflow => "Arithmetic overflow"@,
    }
}

impl PaymasterError {
    /// The refusal in words.
    pub fn message(&self) -> (r: &'static str)
        ensures
            r@ == message_of(*self),
    {
        match self {
            PaymasterError::Unauthorized => "Unauthorized",
            PaymasterError::AlreadyInitialized => "Already initialized",
            PaymasterError::NotInitialized => "Not initialized",
            PaymasterError::ContractPaused => "Contract paused",
            PaymasterError::InsufficientBalance => "Insufficient balance",
            PaymasterError::TransferFailed => "Transfer failed",
            PaymasterError::InvalidAmount => "Amount must be greater than zero",
            PaymasterError::InvalidOperation => "Invalid operation",
            PaymasterError::ArithmeticOverflow => "Arithmetic overflow",
        }
    }
}

/// The value of an amount that came back from a checked operation.
pub open spec fn amount_value(r: Result<U256, PaymasterError>) -> Result<nat, PaymasterError> {
    match r {
        Ok(v) => Ok(v@),
        Err(e) => Err(e),
    }
}

} // verus!
