//! The failures that the operations of the contract report.

use vstd::prelude::*;
use vstd::string::StringExecFns;

verus! {

/// Why the funds attached to a call are not a payment in one denomination.
#[derive(Clone, Copy, Debug, PartialEq, Eq, Structural)]
pub enum PaymentError {
    /// More than one denomination was attached.
    MultipleDenoms {},
    /// Nothing was attached, or the one coin attached has amount zero.
    NoFunds {},
}

/// Why `value * numerator / denominator` could not be computed.
#[derive(Clone, Copy, Debug, PartialEq, Eq, Structural)]
pub enum RatioError {
    /// The denominator is zero.
    DivideByZero,
    /// The quotient does not fit in 128 bits.
    Overflow,
}

/// A failure of one of the contract's operations. Every failure ends the call.
#[derive(Clone, Debug, PartialEq, Eq)]
pub enum ContractError {
    /// A failure reported by the environment or by a decoder, with its text:
    /// an invalid collector address, a malformed completion payload, a
    /// missing configuration value.
    Std { msg: String },
    /// The attached funds are not a payment in one denomination.
    Payment(PaymentError),
    /// The fee could not be computed.
    Math(RatioError),
    /// The fee is larger than the deposit it is taken from.
    Overflow {},
    /// The fee ceiling given at initialization is outside the accepted range.
    InvalidMaxFeePercentage {},
    /// A swap is already in flight.
    ActiveSwapExists {},
    /// The swap engine reported a failure; `reason` is its text, unchanged.
    FailedSwap { reason: String },
    /// An internal inconsistency: a completion without a swap in flight, or a
    /// recorded swap whose route names no output denomination.
    Unexpected {},
}

/// The mathematical content of a [`ContractError`].
pub enum ErrorView {
    Std { msg: Seq<char> },
    Payment(PaymentError),
    Math(RatioError),
    Overflow,
    InvalidMaxFeePercentage,
    ActiveSwapExists,
    FailedSwap { reason: Seq<char> },
    Unexpected,
}

impl View for ContractError {
    type V = ErrorView;

    open spec fn view(&self) -> ErrorView {
        match *self {
            ContractError::Std { msg } => ErrorView::Std { msg: msg@ },
            ContractError::Payment(e) => ErrorView::Payment(e),
            ContractError::Math(e) => ErrorView::Math(e),
            ContractError::Overflow {  } => ErrorView::Overflow,
            ContractError::InvalidMaxFeePercentage {  } => ErrorView::InvalidMaxFeePercentage,
            ContractError::ActiveSwapExists {  } => ErrorView::ActiveSwapExists,
            ContractError::FailedSwap { reason } => ErrorView::FailedSwap { reason: reason@ },
            ContractError::Unexpected {  } => ErrorView::Unexpected,
        }
    }
}

/// The text shown for a payment failure.
pub open spec fn payment_message(e: PaymentError) -> Seq<char> {
    match e {
        PaymentError::MultipleDenoms {  } => "Sent more than one denomination"@,
        PaymentError::NoFunds {  } => "No funds sent"@,
    }
}

/// The text shown for a failed ratio.
pub open spec fn ratio_message(e: RatioError) -> Seq<char> {
    match e {
        RatioError::DivideByZero => "Denominator must not be zero"@,
        RatioError::Overflow => "Multiplication overflow"@,
    }
}

impl ErrorView {
    /// The plain-text reason returned to the caller.
    pub open spec fn message(self) -> Seq<char> {
        match self {
            ErrorView::Std { msg } => msg,
            ErrorView::Payment(e) => payment_message(e),
            ErrorView::Math(e) => ratio_message(e),
            ErrorView::Overflow => "Fee exceeds the deposited amount"@,
            ErrorView::InvalidMaxFeePercentage =>
                "Invalid max fee percentage. Must be between 0 and 10"@,
            ErrorView::ActiveSwapExists =>
                "There is already an active swap stored for this contract. Re-entry not allowed."@,
            ErrorView::FailedSwap { reason } => "Swap failed: "@ + reason,
            ErrorView::Unexpected =>
                "Unexpected error. This should never happen as validation should have prevented this."@,
        }
    }
}

impl PaymentError {
    /// The text shown for this failure.
    pub fn to_string(&self) -> (s: String)
        ensures
            s@ == payment_message(*self),
    {
        match self {
            PaymentError::MultipleDenoms {  } => "Sent more than one denomination".to_owned(),
            PaymentError::NoFunds {  } => "No funds sent".to_owned(),
        }
    }
}

impl RatioError {
    /// The text shown for this failure.
    pub fn to_string(&self) -> (s: String)
        ensures
            s@ == ratio_message(*self),
    {
        match self {
            RatioError::DivideByZero => "Denominator must not be zero".to_owned(),
            RatioError::Overflow => "Multiplication overflow".to_owned(),
        }
    }
}

impl ContractError {
    /// The plain-text reason returned to the caller.
    pub fn to_string(&self) -> (s: String)
        ensures
            s@ == self@.message(),
    {
        match self {
            ContractError::Std { msg } => msg.clone(),
            ContractError::Payment(e) => e.to_string(),
            ContractError::Math(e) => e.to_string(),
            ContractError::Overflow {  } => "Fee exceeds the deposited amount".to_owned(),
            ContractError::InvalidMaxFeePercentage {  } =>
                "Invalid max fee percentage. Must be between 0 and 10".to_owned(),
            ContractError::ActiveSwapExists {  } =>
                "There is already an active swap stored for this contract. Re-entry not allowed.".to_owned(),
            ContractError::FailedSwap { reason } => "Swap failed: ".to_owned().concat(reason.as_str()),
            ContractError::Unexpected {  } =>
                "Unexpected error. This should never happen as validation should have prevented this.".to_owned(),
        }
    }
}

} // verus!
