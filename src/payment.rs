//! Query payment negotiation: probe the cost, hold it to the caller's
//! ceiling, and pay exactly what was quoted.
use vstd::prelude::*;
use crate::error::Error;
use crate::status::Status;
use crate::entity_id::AccountId;
use crate::transaction::{AccountAmount, TransactionBodyData, WireBody};
use crate::transaction_id::TransactionId;

verus! {

/// How a query is to be submitted.
#[derive(Clone, Copy, Debug, PartialEq, Eq, Structural)]
pub enum QueryPlan {
    /// Send the unpaid cost-probe variant of the query first.
    ProbeCost,
    /// Send the query with a payment of `amount`.
    Pay { amount: u64 },
}

/// With an explicit payment the query is sent with it at once; otherwise
/// its cost is probed first.
pub fn plan_query(explicit_payment: Option<u64>) -> (r: QueryPlan)
    ensures
        explicit_payment matches Some(a) ==> r == (QueryPlan::Pay { amount: a }),
        explicit_payment is None ==> r == QueryPlan::ProbeCost,
{
    match explicit_payment {
        Some(amount) => QueryPlan::Pay { amount },
        None => QueryPlan::ProbeCost,
    }
}

/// The payment to attach after the probe quoted `query_cost`: the quoted
/// cost itself, unless it exceeds what the caller authorised.
pub open spec fn payment_outcome(max_query_payment: u64, query_cost: u64) -> Result<u64, Error> {
    if query_cost > max_query_payment {
        Err(Error::MaxQueryPaymentExceeded { max_query_payment, query_cost })
    } else {
        Ok(query_cost)
    }
}

/// The payment to attach after the probe quoted `query_cost`; a cost above
/// the ceiling fails the query and nothing is paid.
pub fn payment_after_probe(max_query_payment: u64, query_cost: u64) -> (r: Result<u64, Error>)
    ensures
        r == payment_outcome(max_query_payment, query_cost),
{
    if query_cost > max_query_payment {
        Err(Error::MaxQueryPaymentExceeded { max_query_payment, query_cost })
    } else {
        Ok(query_cost)
    }
}

/// The payment for a query: a transfer of `amount` from the payer of
/// `transaction_id` to `node`, sent to that node.
pub open spec fn payment_body(
    transaction_id: TransactionId,
    node: AccountId,
    fee: u64,
    valid_duration: u64,
    amount: u64,
) -> WireBody {
    WireBody {
        transaction_id,
        node_account_id: node,
        transaction_fee: fee,
        valid_duration,
        data: TransactionBodyData::CryptoTransfer {
            from: AccountAmount { account_id: transaction_id.account_id, amount: (-amount) as i64 },
            to: AccountAmount { account_id: node, amount: amount as i64 },
        },
    }
}

/// The body of the transfer that pays `node` for a query; an amount that
/// does not fit a signed 64-bit balance change is refused.
pub fn query_payment_body(
    transaction_id: TransactionId,
    node: AccountId,
    fee: u64,
    valid_duration: u64,
    amount: u64,
) -> (r: Result<WireBody, Error>)
    ensures
        amount > i64::MAX ==> r == Err::<WireBody, Error>(Error::PaymentAmountTooLarge { amount }),
        amount <= i64::MAX ==> r == Ok::<WireBody, Error>(
            payment_body(transaction_id, node, fee, valid_duration, amount),
        ),
{
    if amount > i64::MAX as u64 {
        return Err(Error::PaymentAmountTooLarge { amount });
    }
    let paid = amount as i64;
    Ok(
        WireBody {
            transaction_id,
            node_account_id: node,
            transaction_fee: fee,
            valid_duration,
            data: TransactionBodyData::CryptoTransfer {
                from: AccountAmount { account_id: transaction_id.account_id, amount: -paid },
                to: AccountAmount { account_id: node, amount: paid },
            },
        },
    )
}

/// The error for a precheck rejection of the unpaid cost probe.
pub fn probe_rejected(status: Status) -> (r: Error)
    ensures
        r == (Error::QueryNoPaymentPreCheckStatus { status }),
{
    Error::QueryNoPaymentPreCheckStatus { status }
}

/// The error for a precheck rejection of the paid attempt; an underpriced
/// payment is reported like any other code, never re-estimated.
pub fn paid_attempt_rejected(status: Status, transaction_id: TransactionId) -> (r: Error)
    ensures
        r == (Error::QueryPaymentPreCheckStatus { status, transaction_id }),
{
    Error::QueryPaymentPreCheckStatus { status, transaction_id }
}

/// A probed cost above the ceiling is refused with both amounts reported and
/// no payment amount; otherwise the amount paid is the quoted cost, which
/// never exceeds the ceiling.
pub proof fn lemma_ceiling_never_exceeded(max_query_payment: u64, query_cost: u64)
    ensures
        query_cost > max_query_payment ==> payment_outcome(max_query_payment, query_cost) == Err::<
            u64,
            Error,
        >(Error::MaxQueryPaymentExceeded { max_query_payment, query_cost }),
        payment_outcome(max_query_payment, query_cost) matches Ok(paid) ==> paid == query_cost && paid
            <= max_query_payment,
{
}

} // verus!
