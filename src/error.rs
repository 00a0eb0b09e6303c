//! The errors that the library reports to its callers.
use vstd::prelude::*;
use crate::status::Status;
use crate::transaction_id::TransactionId;

verus! {

#[derive(Clone, Copy, Debug, PartialEq, Eq)]
pub enum Error {
    /// An entity reference carries a checksum other than the one computed
    /// for the ledger it is used on.
    BadEntityId { shard: u64, realm: u64, num: u64, present_checksum: [u8; 5], expected_checksum: [u8; 5] },
    /// Neither the builder nor the defaults name a payer account.
    NoPayerAccountOrTransactionId,
    /// No node could be chosen to send the request to.
    NoNodeAccountIds,
    /// The request was signed and cannot be frozen again.
    AlreadyFrozen,
    /// The request must be frozen before it is signed.
    NotFrozen,
    /// A signature set does not hold exactly one signature per node payload.
    SignatureCountMismatch { expected: usize, given: usize },
    /// A node rejected a transaction at precheck.
    TransactionPreCheckStatus { status: Status, transaction_id: TransactionId },
    /// A node rejected the paid attempt of a query at precheck.
    QueryPaymentPreCheckStatus { status: Status, transaction_id: TransactionId },
    /// A node rejected an unpaid query (a cost probe) at precheck.
    QueryNoPaymentPreCheckStatus { status: Status },
    /// The cost of a query is above what the caller authorised.
    MaxQueryPaymentExceeded { max_query_payment: u64, query_cost: u64 },
    /// A receipt concluded with a failure status.
    ReceiptStatus { status: Status, transaction_id: TransactionId },
    /// Attempts or time ran out while only retryable outcomes were seen.
    TimedOut { last_status: Option<Status> },
    /// A query payment too large to be written as a signed 64-bit amount.
    PaymentAmountTooLarge { amount: u64 },
    /// No fresh transaction id can be given out: the last start time is
    /// the largest representable one.
    TransactionIdsExhausted,
    /// No concluded receipt was seen before the deadline.
    ReceiptTimeout { transaction_id: TransactionId },
}

} // verus!
