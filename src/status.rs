//! Response codes returned by nodes, and how the engine partitions them.
use vstd::prelude::*;

verus! {

/// A response code from a node: a precheck verdict or a receipt status.
#[derive(Clone, Copy, Debug, PartialEq, Eq, Structural)]
pub enum Status {
    Okay,
    Success,
    Busy,
    PlatformNotActive,
    PlatformTransactionNotCreated,
    DuplicateTransaction,
    Unknown,
    ReceiptNotFound,
    InvalidSignature,
    InvalidAccountId,
    InvalidTokenId,
    InvalidContractId,
    InvalidTopicId,
    InsufficientPayerBalance,
    InsufficientTxFee,
    TokenNotAssociatedToAccount,
    TransactionExpired,
    /// Any other code, by its wire number.
    Other(i32),
}

/// How the engine treats a precheck code.
#[derive(Clone, Copy, Debug, PartialEq, Eq, Structural)]
pub enum PrecheckClass {
    Accepted,
    Retryable,
    Permanent,
}

/// The partition of precheck codes.
pub open spec fn precheck_class(s: Status) -> PrecheckClass {
    match s {
        Status::Okay | Status::Success => PrecheckClass::Accepted,
        Status::Busy
        | Status::PlatformNotActive
        | Status::PlatformTransactionNotCreated
        | Status::DuplicateTransaction => PrecheckClass::Retryable,
        _ => PrecheckClass::Permanent,
    }
}

/// Receipt codes that mean consensus has not concluded yet.
pub open spec fn receipt_pending(s: Status) -> bool {
    match s {
        Status::Unknown | Status::ReceiptNotFound | Status::Busy | Status::PlatformNotActive => true,
        _ => false,
    }
}

impl Status {
    /// Classifies a precheck code as accepted, retryable or permanent.
    pub fn precheck_class(&self) -> (r: PrecheckClass)
        ensures
            r == precheck_class(*self),
    {
        match self {
            Status::Okay | Status::Success => PrecheckClass::Accepted,
            Status::Busy
            | Status::PlatformNotActive
            | Status::PlatformTransactionNotCreated
            | Status::DuplicateTransaction => PrecheckClass::Retryable,
            _ => PrecheckClass::Permanent,
        }
    }

    /// Whether a receipt with this status is still awaiting consensus.
    pub fn is_receipt_pending(&self) -> (r: bool)
        ensures
            r == receipt_pending(*self),
    {
        match self {
            Status::Unknown | Status::ReceiptNotFound | Status::Busy | Status::PlatformNotActive => true,
            _ => false,
        }
    }
}

} // verus!
