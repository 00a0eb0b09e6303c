//! Receipt polling: ask for the consensus receipt of an accepted transaction
//! at a fixed interval until it concludes or the deadline passes.
use vstd::prelude::*;
use crate::entity_id::{AccountId, ContractId, TokenId, TopicId};
use crate::error::Error;
use crate::status::{receipt_pending, Status};
use crate::transaction_id::TransactionId;

verus! {

/// Pause between two receipt queries, in milliseconds.
pub const RECEIPT_POLL_INTERVAL: u64 = 500;

/// Rate of exchange between the ledger's currency and cents.
#[derive(Clone, Copy, Debug, PartialEq, Eq, Structural)]
pub struct ExchangeRate {
    pub hbars: i32,
    pub cents: i32,
    pub expiration_time: u64,
}

/// The consensus result of a transaction.
#[derive(Clone, Copy, Debug, PartialEq, Eq)]
pub struct TransactionReceipt {
    pub status: Status,
    pub account_id: Option<AccountId>,
    pub contract_id: Option<ContractId>,
    pub token_id: Option<TokenId>,
    pub topic_id: Option<TopicId>,
    pub exchange_rate: Option<ExchangeRate>,
}

/// What one receipt query came back with.
#[derive(Clone, Copy, Debug, PartialEq, Eq)]
pub enum ReceiptObservation {
    Receipt(TransactionReceipt),
    /// The node could not be reached.
    Unreachable,
}

/// What the poller does next.
#[derive(Clone, Copy, Debug, PartialEq, Eq)]
pub enum PollStep {
    /// Pause `delay` milliseconds, then query node `node_index`.
    Query { node_index: usize, delay: u64 },
    /// The receipt concluded.
    Done(TransactionReceipt),
    /// Polling ended with an error.
    Failed(Error),
}

/// The state of one polling run over `node_count` candidate nodes.
#[derive(Clone, Copy, Debug, PartialEq, Eq)]
pub struct ReceiptPoll {
    pub transaction_id: TransactionId,
    pub node_count: usize,
    pub node_index: usize,
    pub validate_status: bool,
    pub deadline: u64,
    pub total_sleep: u64,
}

impl ReceiptPoll {
    pub open spec fn wf(&self) -> bool {
        &&& self.node_count >= 1
        &&& self.node_index < self.node_count
    }
}

/// The pause before asking again at `now`: the fixed interval, cut short so
/// that it ends no later than the deadline.
pub open spec fn poll_pause(now: u64, deadline: u64) -> u64 {
    if deadline - now < RECEIPT_POLL_INTERVAL {
        (deadline - now) as u64
    } else {
        RECEIPT_POLL_INTERVAL
    }
}

/// The next state and step after observation `o`, made at time `now`.
pub open spec fn poll_step_spec(st: ReceiptPoll, o: ReceiptObservation, now: u64) -> (ReceiptPoll, PollStep) {
    let timeout = PollStep::Failed(Error::ReceiptTimeout { transaction_id: st.transaction_id });
    match o {
        ReceiptObservation::Receipt(r) => {
            if !receipt_pending(r.status) {
                if st.validate_status && r.status != Status::Success {
                    (st, PollStep::Failed(Error::ReceiptStatus { status: r.status, transaction_id: st.transaction_id }))
                } else {
                    (st, PollStep::Done(r))
                }
            } else if now >= st.deadline {
                (st, timeout)
            } else {
                let delay = poll_pause(now, st.deadline);
                let total = if st.total_sleep + delay > u64::MAX { u64::MAX } else { (st.total_sleep + delay) as u64 };
                (ReceiptPoll { total_sleep: total, ..st }, PollStep::Query { node_index: st.node_index, delay })
            }
        },
        ReceiptObservation::Unreachable => {
            if now >= st.deadline {
                (st, timeout)
            } else {
                let node = ((st.node_index + 1) % (st.node_count as int)) as usize;
                (ReceiptPoll { node_index: node, ..st }, PollStep::Query { node_index: node, delay: 0 })
            }
        },
    }
}

impl ReceiptPoll {
    /// A polling run that starts at the first node, with no pause.
    pub fn new(transaction_id: TransactionId, node_count: usize, validate_status: bool, deadline: u64) -> (r: (
        Self,
        PollStep,
    ))
        requires
            node_count >= 1,
        ensures
            r.0 == (ReceiptPoll {
                transaction_id,
                node_count,
                node_index: 0,
                validate_status,
                deadline,
                total_sleep: 0,
            }),
            r.0.wf(),
            r.1 == (PollStep::Query { node_index: 0, delay: 0 }),
    {
        (
            ReceiptPoll { transaction_id, node_count, node_index: 0, validate_status, deadline, total_sleep: 0 },
            PollStep::Query { node_index: 0, delay: 0 },
        )
    }

    /// Records what the query at `self.node_index` returned at time `now`.
    /// A concluded receipt ends polling: with the receipt, or, when status
    /// validation is on and the status is not a success, with
    /// `ReceiptStatus`. A pending receipt is asked for again after the fixed
    /// interval; an unreachable node is replaced by the next one at once.
    /// When the next query could not start before the deadline, a pending
    /// or missing receipt ends polling with `ReceiptTimeout`.
    pub fn record(&mut self, observation: ReceiptObservation, now: u64) -> (r: PollStep)
        requires
            old(self).wf(),
        ensures
            (*final(self), r) == poll_step_spec(*old(self), observation, now),
            final(self).wf(),
            r matches PollStep::Query { delay, .. } ==> now < old(self).deadline && now + delay <= old(self).deadline,
            r == PollStep::Failed(Error::ReceiptTimeout { transaction_id: old(self).transaction_id }) ==> now
                >= old(self).deadline,
    {
        match observation {
            ReceiptObservation::Receipt(receipt) => {
                if !receipt.status.is_receipt_pending() {
                    let failed = match receipt.status {
                        Status::Success => false,
                        _ => self.validate_status,
                    };
                    if failed {
                        PollStep::Failed(
                            Error::ReceiptStatus { status: receipt.status, transaction_id: self.transaction_id },
                        )
                    } else {
                        PollStep::Done(receipt)
                    }
                } else if now >= self.deadline {
                    PollStep::Failed(Error::ReceiptTimeout { transaction_id: self.transaction_id })
                } else {
                    let delay = if self.deadline - now < RECEIPT_POLL_INTERVAL {
                        self.deadline - now
                    } else {
                        RECEIPT_POLL_INTERVAL
                    };
                    self.total_sleep = self.total_sleep.saturating_add(delay);
                    PollStep::Query { node_index: self.node_index, delay }
                }
            },
            ReceiptObservation::Unreachable => {
                if now >= self.deadline {
                    PollStep::Failed(Error::ReceiptTimeout { transaction_id: self.transaction_id })
                } else {
                    self.node_index = (self.node_index + 1) % self.node_count;
                    PollStep::Query { node_index: self.node_index, delay: 0 }
                }
            },
        }
    }
}

/// A polling run fed the scripted observations `script`, one per query,
/// where time passes only during the pauses the poller asks for: the state
/// and step after the last observation consumed.
pub open spec fn poll_run(st: ReceiptPoll, script: Seq<ReceiptObservation>) -> (ReceiptPoll, PollStep)
    decreases script.len(),
{
    if script.len() == 0 {
        (st, PollStep::Query { node_index: st.node_index, delay: 0 })
    } else {
        let (st1, step) = poll_step_spec(st, script[0], st.total_sleep);
        if step is Query && script.len() > 1 {
            poll_run(st1, script.drop_first())
        } else {
            (st1, step)
        }
    }
}

/// Whether every observation in `script` is a receipt that is still pending.
pub open spec fn all_pending(script: Seq<ReceiptObservation>) -> bool {
    forall|i: int|
        0 <= i < script.len() ==> (#[trigger] script[i] matches ReceiptObservation::Receipt(r)
            && receipt_pending(r.status))
}

proof fn lemma_poll_pending_then_success(st: ReceiptPoll, script: Seq<ReceiptObservation>, k: nat)
    requires
        st.wf(),
        script.len() == k + 1,
        all_pending(script.take(k as int)),
        script[k as int] matches ReceiptObservation::Receipt(r) && r.status == Status::Success,
        st.total_sleep + k * RECEIPT_POLL_INTERVAL <= st.deadline,
    ensures
        poll_run(st, script).1 == PollStep::Done(script[k as int]->Receipt_0),
        poll_run(st, script).0.total_sleep == st.total_sleep + k * RECEIPT_POLL_INTERVAL,
    decreases k,
{
    if k > 0 {
        assert(script.take(k as int)[0] == script[0]);
        let (st1, step) = poll_step_spec(st, script[0], st.total_sleep);
        let rest = script.drop_first();
        assert(all_pending(rest.take(k - 1))) by {
            assert forall|i: int| 0 <= i < k - 1 implies (#[trigger] rest.take(k - 1)[i] matches ReceiptObservation::Receipt(r)
                && receipt_pending(r.status)) by {
                assert(rest.take(k - 1)[i] == script.take(k as int)[i + 1]);
            }
        }
        assert(rest[k - 1] == script[k as int]);
        assert(k * RECEIPT_POLL_INTERVAL == (k - 1) * RECEIPT_POLL_INTERVAL + RECEIPT_POLL_INTERVAL) by (nonlinear_arith);
        lemma_poll_pending_then_success(st1, rest, (k - 1) as nat);
    }
}

/// A receipt that is pending for `k` queries and then succeeds is returned
/// after exactly `k` pauses of the fixed interval, if all of them end by
/// the deadline.
pub proof fn lemma_receipt_after_pending(st: ReceiptPoll, script: Seq<ReceiptObservation>, k: nat)
    requires
        st.wf(),
        st.total_sleep == 0,
        script.len() == k + 1,
        all_pending(script.take(k as int)),
        script[k as int] matches ReceiptObservation::Receipt(r) && r.status == Status::Success,
        k * RECEIPT_POLL_INTERVAL <= st.deadline,
    ensures
        poll_run(st, script).1 == PollStep::Done(script[k as int]->Receipt_0),
        poll_run(st, script).0.total_sleep == k * RECEIPT_POLL_INTERVAL,
{
    lemma_poll_pending_then_success(st, script, k);
}

/// A receipt that stays pending ends polling with `ReceiptTimeout`, only
/// once the deadline has passed, and at the latest once the pauses of the
/// fixed interval reach it.
pub proof fn lemma_pending_forever_times_out(st: ReceiptPoll, script: Seq<ReceiptObservation>)
    requires
        st.wf(),
        script.len() >= 1,
        all_pending(script),
        st.total_sleep <= st.deadline,
        st.total_sleep + (script.len() - 1) * RECEIPT_POLL_INTERVAL >= st.deadline,
    ensures
        poll_run(st, script).1 == PollStep::Failed(Error::ReceiptTimeout { transaction_id: st.transaction_id }),
        poll_run(st, script).0.total_sleep >= st.deadline,
    decreases script.len(),
{
    assert(script[0] matches ReceiptObservation::Receipt(r) && receipt_pending(r.status));
    if st.total_sleep < st.deadline {
        let n = script.len() - 1;
        assert(n * RECEIPT_POLL_INTERVAL == (n - 1) * RECEIPT_POLL_INTERVAL + RECEIPT_POLL_INTERVAL) by (nonlinear_arith);
        assert(script.len() > 1) by {
            if script.len() == 1 {
                assert(n * RECEIPT_POLL_INTERVAL == 0) by (nonlinear_arith) requires n == 0;
            }
        }
        assert((n - 1) * RECEIPT_POLL_INTERVAL >= 0) by (nonlinear_arith) requires n >= 1;
        let (st1, step) = poll_step_spec(st, script[0], st.total_sleep);
        let rest = script.drop_first();
        assert(all_pending(rest)) by {
            assert forall|i: int| 0 <= i < rest.len() implies (#[trigger] rest[i] matches ReceiptObservation::Receipt(r)
                && receipt_pending(r.status)) by {
                assert(rest[i] == script[i + 1]);
            }
        }
        lemma_pending_forever_times_out(st1, rest);
    }
}

} // verus!
