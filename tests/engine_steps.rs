use hedera_exec::engine::{step_error, suspect_after, ExecutionAttempt, Outcome, Purpose, RetryPolicy, Step};
use hedera_exec::entity_id::EntityId;
use hedera_exec::error::Error;
use hedera_exec::status::{PrecheckClass, Status};
use hedera_exec::transaction_id::TransactionId;

fn policy() -> RetryPolicy {
    RetryPolicy { max_attempts: 5, min_backoff: 100, max_backoff: 300 }
}

#[test]
fn precheck_partition() {
    assert_eq!(Status::Okay.precheck_class(), PrecheckClass::Accepted);
    assert_eq!(Status::Busy.precheck_class(), PrecheckClass::Retryable);
    assert_eq!(Status::PlatformNotActive.precheck_class(), PrecheckClass::Retryable);
    assert_eq!(Status::PlatformTransactionNotCreated.precheck_class(), PrecheckClass::Retryable);
    assert_eq!(Status::DuplicateTransaction.precheck_class(), PrecheckClass::Retryable);
    assert_eq!(Status::InvalidSignature.precheck_class(), PrecheckClass::Permanent);
    assert_eq!(Status::InsufficientTxFee.precheck_class(), PrecheckClass::Permanent);
    assert_eq!(Status::Other(12345).precheck_class(), PrecheckClass::Permanent);
}

#[test]
fn retries_then_accepts() {
    let p = policy();
    let (mut st, first) = ExecutionAttempt::start(&p);
    assert_eq!(first, Step::Send { node_index: 0, delay: 0 });
    let mut delays = Vec::new();
    let mut last = first;
    for _ in 0..3 {
        last = st.record(&p, 2, Outcome::Precheck(Status::Busy), 0, st.total_delay, 1_000_000);
        if let Step::Send { delay, .. } = last {
            delays.push(delay);
        }
    }
    assert_eq!(delays, vec![100, 200, 300]);
    assert_eq!(last, Step::Send { node_index: 1, delay: 300 });
    let done = st.record(&p, 2, Outcome::Precheck(Status::Okay), 0, st.total_delay, 1_000_000);
    assert_eq!(done, Step::Accepted { node_index: 1 });
    assert_eq!(st.attempt, 4);
    assert_eq!(st.total_delay, 600);
}

#[test]
fn permanent_rejection_is_immediate() {
    let p = policy();
    let (mut st, _) = ExecutionAttempt::start(&p);
    let step = st.record(&p, 3, Outcome::Precheck(Status::InvalidAccountId), 0, 0, 1_000_000);
    assert_eq!(step, Step::Rejected { status: Status::InvalidAccountId });
    assert_eq!(st.attempt, 1);
    assert_eq!(st.total_delay, 0);
}

#[test]
fn transport_failure_moves_on_without_pause() {
    let p = policy();
    let (mut st, _) = ExecutionAttempt::start(&p);
    let step = st.record(&p, 3, Outcome::TransportFailure, 0, 0, 1_000_000);
    assert_eq!(step, Step::Send { node_index: 1, delay: 0 });
    assert_eq!(st.backoff, 100);
}

#[test]
fn attempts_run_out() {
    let p = RetryPolicy { max_attempts: 2, min_backoff: 10, max_backoff: 20 };
    let (mut st, _) = ExecutionAttempt::start(&p);
    st.record(&p, 1, Outcome::Precheck(Status::Busy), 0, 0, 1_000);
    let step = st.record(&p, 1, Outcome::TransportFailure, 0, 10, 1_000);
    assert_eq!(step, Step::Exhausted { last_status: Some(Status::Busy) });
}

#[test]
fn deadline_passes() {
    let p = policy();
    let (mut st, _) = ExecutionAttempt::start(&p);
    let step = st.record(&p, 1, Outcome::Precheck(Status::PlatformNotActive), 0, 500, 500);
    assert_eq!(step, Step::Exhausted { last_status: Some(Status::PlatformNotActive) });
}

#[test]
fn default_policy_values() {
    assert_eq!(
        RetryPolicy::default_policy(),
        RetryPolicy { max_attempts: 10, min_backoff: 250, max_backoff: 8000 }
    );
}

#[test]
fn failure_steps_become_errors() {
    let id = TransactionId { account_id: EntityId::from_num(2), valid_start: 1, nonce: None, scheduled: false };
    let rejected = Step::Rejected { status: Status::InvalidTokenId };
    assert_eq!(
        step_error(Purpose::Transaction, rejected, id),
        Some(Error::TransactionPreCheckStatus { status: Status::InvalidTokenId, transaction_id: id })
    );
    assert_eq!(
        step_error(Purpose::CostProbe, rejected, id),
        Some(Error::QueryNoPaymentPreCheckStatus { status: Status::InvalidTokenId })
    );
    assert_eq!(
        step_error(Purpose::PaidQuery, rejected, id),
        Some(Error::QueryPaymentPreCheckStatus { status: Status::InvalidTokenId, transaction_id: id })
    );
    assert_eq!(
        step_error(Purpose::Transaction, Step::Exhausted { last_status: None }, id),
        Some(Error::TimedOut { last_status: None })
    );
    assert_eq!(step_error(Purpose::Transaction, Step::Accepted { node_index: 0 }, id), None);
}

#[test]
fn jitter_lengthens_pause_by_at_most_half() {
    let p = policy();
    let (mut st, _) = ExecutionAttempt::start(&p);
    let step = st.record(&p, 2, Outcome::Precheck(Status::Busy), 37, 0, 1_000_000);
    assert_eq!(step, Step::Send { node_index: 1, delay: 137 });
    let step = st.record(&p, 2, Outcome::Precheck(Status::Busy), 160, 137, 1_000_000);
    assert_eq!(step, Step::Send { node_index: 0, delay: 200 + 160 % 101 });
    assert_eq!(st.total_delay, 137 + 259);
}

#[test]
fn retry_pause_is_cut_short_at_the_deadline() {
    let p = RetryPolicy { max_attempts: 10, min_backoff: 100, max_backoff: 1000 };
    let (mut st, _) = ExecutionAttempt::start(&p);
    let step = st.record(&p, 2, Outcome::Precheck(Status::Busy), 0, 50, 100);
    assert_eq!(step, Step::Send { node_index: 1, delay: 50 });
    let step = st.record(&p, 2, Outcome::Precheck(Status::Busy), 0, 100, 100);
    assert_eq!(step, Step::Exhausted { last_status: Some(Status::Busy) });
}

#[test]
fn transport_failure_marks_the_node() {
    assert_eq!(suspect_after(Outcome::TransportFailure, 2), Some(2));
    assert_eq!(suspect_after(Outcome::Precheck(Status::Busy), 2), None);
    assert_eq!(suspect_after(Outcome::Precheck(Status::Okay), 0), None);
}
