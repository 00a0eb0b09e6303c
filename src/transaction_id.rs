//! Transaction identifiers: the idempotency key of a submission.
use vstd::prelude::*;
use crate::entity_id::AccountId;

verus! {

/// A point in time, as nanoseconds since the Unix epoch.
pub type Timestamp = u64;

/// Payer account and valid-start time; unique per payer and start.
#[derive(Clone, Copy, Debug, PartialEq, Eq)]
pub struct TransactionId {
    pub account_id: AccountId,
    pub valid_start: Timestamp,
    pub nonce: Option<u32>,
    pub scheduled: bool,
}

/// Hands out valid-start times that strictly increase within one process,
/// even when the clock does not move between two calls.
#[derive(Clone, Copy, Debug, PartialEq, Eq)]
pub struct TransactionIdGenerator {
    pub last_valid_start: Timestamp,
}

/// The valid-start time given out for clock reading `now` after `last`.
pub open spec fn next_valid_start(last: Timestamp, now: Timestamp) -> Timestamp {
    if now > last {
        now
    } else {
        (last + 1) as Timestamp
    }
}

impl TransactionIdGenerator {
    pub fn new() -> (r: Self)
        ensures
            r.last_valid_start == 0,
    {
        TransactionIdGenerator { last_valid_start: 0 }
    }

    /// A fresh id for `payer` at clock reading `now`: the start is `now`, or
    /// just after the last start given out if the clock has not passed it.
    pub fn generate(&mut self, payer: AccountId, now: Timestamp) -> (r: TransactionId)
        requires
            old(self).last_valid_start < u64::MAX,
        ensures
            r.account_id == payer,
            r.valid_start == next_valid_start(old(self).last_valid_start, now),
            r.valid_start > old(self).last_valid_start,
            r.nonce is None,
            !r.scheduled,
            final(self).last_valid_start == r.valid_start,
    {
        let start = if now > self.last_valid_start {
            now
        } else {
            self.last_valid_start + 1
        };
        self.last_valid_start = start;
        TransactionId { account_id: payer, valid_start: start, nonce: None, scheduled: false }
    }
}

} // verus!
