//! The execution engine's decisions: after each attempt, whether to accept,
//! fail, or send again, to which node and after how long a pause.
use vstd::prelude::*;
use crate::error::Error;
use crate::status::{precheck_class, PrecheckClass, Status};
use crate::transaction_id::TransactionId;
use vstd::arithmetic::div_mod::{lemma_add_mod_noop, lemma_mod_twice};

verus! {

/// Largest backoff that a policy may name, so that doubling cannot overflow.
pub const MAX_BACKOFF_LIMIT: u64 = 4611686018427387904;

/// Attempt budget and backoff bounds (milliseconds) of one execution.
#[derive(Clone, Copy, Debug, PartialEq, Eq, Structural)]
pub struct RetryPolicy {
    pub max_attempts: u32,
    pub min_backoff: u64,
    pub max_backoff: u64,
}

impl RetryPolicy {
    pub open spec fn wf(&self) -> bool {
        &&& self.max_attempts >= 1
        &&& self.min_backoff <= self.max_backoff
        &&& self.max_backoff <= MAX_BACKOFF_LIMIT
    }

    /// Ten attempts, backoff from a quarter second up to eight seconds.
    pub fn default_policy() -> (r: Self)
        ensures
            r.wf(),
            r == (RetryPolicy { max_attempts: 10, min_backoff: 250, max_backoff: 8000 }),
    {
        RetryPolicy { max_attempts: 10, min_backoff: 250, max_backoff: 8000 }
    }
}

/// The state of one execution: attempts made, the node of the last attempt,
/// the next backoff, the pauses handed out so far, and the last code seen.
#[derive(Clone, Copy, Debug, PartialEq, Eq, Structural)]
pub struct ExecutionAttempt {
    pub attempt: u32,
    pub node_index: usize,
    pub backoff: u64,
    pub total_delay: u64,
    pub last_status: Option<Status>,
}

/// What one attempt came back with.
#[derive(Clone, Copy, Debug, PartialEq, Eq, Structural)]
pub enum Outcome {
    Precheck(Status),
    TransportFailure,
}

/// What the engine does next.
#[derive(Clone, Copy, Debug, PartialEq, Eq, Structural)]
pub enum Step {
    /// Pause `delay` milliseconds, then send to node `node_index`.
    Send { node_index: usize, delay: u64 },
    /// The node at `node_index` accepted the request.
    Accepted { node_index: usize },
    /// A node rejected the request for good.
    Rejected { status: Status },
    /// Attempts or time ran out while only retryable outcomes were seen.
    Exhausted { last_status: Option<Status> },
}

/// The backoff after `b`: doubled, capped at the policy's maximum.
pub open spec fn next_backoff(p: RetryPolicy, b: u64) -> u64 {
    if 2 * b > p.max_backoff {
        p.max_backoff
    } else {
        (2 * b) as u64
    }
}

/// The state before the first attempt.
pub open spec fn initial_attempt(p: RetryPolicy) -> ExecutionAttempt {
    ExecutionAttempt { attempt: 0, node_index: 0, backoff: p.min_backoff, total_delay: 0, last_status: None }
}

/// Whether a state can stand between attempts of an execution under `p` over `n` nodes.
pub open spec fn attempt_wf(p: RetryPolicy, n: usize, st: ExecutionAttempt) -> bool {
    &&& st.attempt < p.max_attempts
    &&& st.node_index < n
    &&& st.backoff <= p.max_backoff
}

/// Backoff `b` lengthened by the random draw `j`, by at most half of `b`.
pub open spec fn jittered(b: u64, j: u64) -> u64 {
    (b + (j as int) % ((b / 2 + 1) as int)) as u64
}

/// The next state and step after `o`, the outcome of the attempt at
/// `st.node_index`, observed at time `now` against `deadline`, with `j` the
/// random draw that lengthens a pause.
pub open spec fn step_spec(
    p: RetryPolicy,
    n: usize,
    st: ExecutionAttempt,
    o: Outcome,
    j: u64,
    now: u64,
    deadline: u64,
) -> (ExecutionAttempt, Step) {
    let attempts = (st.attempt + 1) as u32;
    let retried = match o {
        Outcome::Precheck(s) => precheck_class(s) == PrecheckClass::Retryable,
        Outcome::TransportFailure => true,
    };
    let last = match o {
        Outcome::Precheck(s) => Some(s),
        Outcome::TransportFailure => st.last_status,
    };
    if !retried {
        let s = o->Precheck_0;
        let st1 = ExecutionAttempt { attempt: attempts, last_status: last, ..st };
        if precheck_class(s) == PrecheckClass::Accepted {
            (st1, Step::Accepted { node_index: st.node_index })
        } else {
            (st1, Step::Rejected { status: s })
        }
    } else {
        let pause: u64 = if o is TransportFailure { 0 } else { jittered(st.backoff, j) };
        let delay: u64 = if now + pause > deadline { (deadline - now) as u64 } else { pause };
        if attempts >= p.max_attempts || now >= deadline {
            (ExecutionAttempt { attempt: attempts, last_status: last, ..st }, Step::Exhausted { last_status: last })
        } else {
            let node = ((st.node_index + 1) % (n as int)) as usize;
            let backoff = if o is TransportFailure { st.backoff } else { next_backoff(p, st.backoff) };
            let total = if st.total_delay + delay > u64::MAX { u64::MAX } else { (st.total_delay + delay) as u64 };
            (
                ExecutionAttempt { attempt: attempts, node_index: node, backoff, total_delay: total, last_status: last },
                Step::Send { node_index: node, delay },
            )
        }
    }
}

impl ExecutionAttempt {
    /// The state before the first attempt, which goes to the first node
    /// without a pause.
    pub fn start(policy: &RetryPolicy) -> (r: (Self, Step))
        ensures
            r.0 == initial_attempt(*policy),
            r.1 == (Step::Send { node_index: 0, delay: 0 }),
    {
        (
            ExecutionAttempt { attempt: 0, node_index: 0, backoff: policy.min_backoff, total_delay: 0, last_status: None },
            Step::Send { node_index: 0, delay: 0 },
        )
    }

    /// Records the outcome of the attempt at `self.node_index` and decides
    /// the next step. An accepted code ends the execution at once, as does a
    /// permanent rejection, with no pause and no further attempt. A
    /// retryable code or a transport failure moves to the next node in
    /// order, if attempts and time remain: a retryable code after the
    /// current backoff, which then doubles up to the cap; a transport
    /// failure with no pause. Once the deadline has passed the execution is
    /// exhausted instead, and a pause is cut short to end no later than the
    /// deadline. The pause is lengthened by `jitter` modulo half the backoff;
    /// callers draw `jitter` at random to spread retries.
    pub fn record(
        &mut self,
        policy: &RetryPolicy,
        n_nodes: usize,
        outcome: Outcome,
        jitter: u64,
        now: u64,
        deadline: u64,
    ) -> (r: Step)
        requires
            policy.wf(),
            n_nodes >= 1,
            attempt_wf(*policy, n_nodes, *old(self)),
        ensures
            (*final(self), r) == step_spec(*policy, n_nodes, *old(self), outcome, jitter, now, deadline),
            r is Send ==> attempt_wf(*policy, n_nodes, *final(self)),
            r matches Step::Send { delay, .. } ==> now < deadline && now + delay <= deadline,
    {
        let attempts = self.attempt + 1;
        let last = match outcome {
            Outcome::Precheck(s) => Some(s),
            Outcome::TransportFailure => self.last_status,
        };
        self.attempt = attempts;
        self.last_status = last;
        if let Outcome::Precheck(s) = outcome {
            match s.precheck_class() {
                PrecheckClass::Accepted => {
                    return Step::Accepted { node_index: self.node_index };
                },
                PrecheckClass::Permanent => {
                    return Step::Rejected { status: s };
                },
                PrecheckClass::Retryable => {},
            }
        }
        let transport = match outcome {
            Outcome::TransportFailure => true,
            _ => false,
        };
        if attempts >= policy.max_attempts || now >= deadline {
            Step::Exhausted { last_status: last }
        } else {
            let pause: u64 = if transport { 0 } else { self.backoff + jitter % (self.backoff / 2 + 1) };
            let delay: u64 = if pause > deadline - now { deadline - now } else { pause };
            let node = (self.node_index + 1) % n_nodes;
            if !transport {
                self.backoff = if self.backoff > policy.max_backoff / 2 {
                    policy.max_backoff
                } else if 2 * self.backoff > policy.max_backoff {
                    policy.max_backoff
                } else {
                    2 * self.backoff
                };
            }
            self.total_delay = self.total_delay.saturating_add(delay);
            self.node_index = node;
            Step::Send { node_index: node, delay }
        }
    }
}

/// The position, in the request's node list, of the node to hold suspect
/// after `outcome`, the outcome of the attempt at `node_index`: the node
/// that failed at the transport level, and none after a precheck code.
pub fn suspect_after(outcome: Outcome, node_index: usize) -> (r: Option<usize>)
    ensures
        outcome is TransportFailure ==> r == Some(node_index),
        outcome is Precheck ==> r is None,
{
    match outcome {
        Outcome::TransportFailure => Some(node_index),
        Outcome::Precheck(_) => None,
    }
}

/// What a request sent through the engine is.
#[derive(Clone, Copy, Debug, PartialEq, Eq, Structural)]
pub enum Purpose {
    /// A signed transaction.
    Transaction,
    /// The unpaid cost-probe variant of a query.
    CostProbe,
    /// A query with its payment attached.
    PaidQuery,
}

/// The error that ends an execution, if its last step is a failure: a
/// rejection carries the code and, where there is one, the transaction id.
pub fn step_error(purpose: Purpose, step: Step, transaction_id: TransactionId) -> (r: Option<Error>)
    ensures
        step is Send || step is Accepted <==> r is None,
        step matches Step::Exhausted { last_status } ==> r == Some(Error::TimedOut { last_status }),
        step matches Step::Rejected { status } ==> r == Some(
            match purpose {
                Purpose::Transaction => Error::TransactionPreCheckStatus { status, transaction_id },
                Purpose::CostProbe => Error::QueryNoPaymentPreCheckStatus { status },
                Purpose::PaidQuery => Error::QueryPaymentPreCheckStatus { status, transaction_id },
            },
        ),
{
    match step {
        Step::Send { .. } | Step::Accepted { .. } => None,
        Step::Exhausted { last_status } => Some(Error::TimedOut { last_status }),
        Step::Rejected { status } => Some(
            match purpose {
                Purpose::Transaction => Error::TransactionPreCheckStatus { status, transaction_id },
                Purpose::CostProbe => Error::QueryNoPaymentPreCheckStatus { status },
                Purpose::PaidQuery => Error::QueryPaymentPreCheckStatus { status, transaction_id },
            },
        ),
    }
}

/// An execution driven by the scripted outcomes `script`, one per attempt,
/// with `jitters` the random draws that go with them, where time passes only
/// during the pauses the engine asks for: the state and step after the last
/// outcome consumed.
pub open spec fn run(
    p: RetryPolicy,
    n: usize,
    st: ExecutionAttempt,
    script: Seq<Outcome>,
    jitters: Seq<u64>,
    deadline: u64,
) -> (ExecutionAttempt, Step)
    decreases script.len(),
{
    if script.len() == 0 || jitters.len() == 0 {
        (st, Step::Exhausted { last_status: st.last_status })
    } else {
        let (st1, step) = step_spec(p, n, st, script[0], jitters[0], st.total_delay, deadline);
        if step is Send && script.len() > 1 {
            run(p, n, st1, script.drop_first(), jitters.drop_first(), deadline)
        } else {
            (st1, step)
        }
    }
}

/// Sum of `k` successive pauses, starting from backoff `b`, each lengthened
/// by its draw in `jitters`.
pub open spec fn pause_total(p: RetryPolicy, b: u64, jitters: Seq<u64>, k: nat) -> int
    decreases k,
{
    if k == 0 || jitters.len() == 0 {
        0
    } else {
        jittered(b, jitters[0]) + pause_total(p, next_backoff(p, b), jitters.drop_first(), (k - 1) as nat)
    }
}

/// Sum of `k` successive backoffs, starting from `b`.
pub open spec fn backoff_total(p: RetryPolicy, b: u64, k: nat) -> int
    decreases k,
{
    if k == 0 {
        0
    } else {
        b + backoff_total(p, next_backoff(p, b), (k - 1) as nat)
    }
}

/// `k` retryable precheck codes followed by an accepted one.
pub open spec fn retries_then_accept(script: Seq<Outcome>, k: nat) -> bool {
    &&& script.len() == k + 1
    &&& forall|i: int|
        0 <= i < k ==> (#[trigger] script[i] matches Outcome::Precheck(s) && precheck_class(s)
            == PrecheckClass::Retryable)
    &&& script[k as int] matches Outcome::Precheck(s) && precheck_class(s) == PrecheckClass::Accepted
}

proof fn lemma_pause_total_bounds(p: RetryPolicy, b: u64, jitters: Seq<u64>, k: nat)
    requires
        p.wf(),
        b <= p.max_backoff,
        jitters.len() >= k,
    ensures
        pause_total(p, b, jitters, k) >= backoff_total(p, b, k),
        backoff_total(p, b, k) >= 0,
    decreases k,
{
    if k > 0 {
        lemma_pause_total_bounds(p, next_backoff(p, b), jitters.drop_first(), (k - 1) as nat);
    }
}

proof fn lemma_run_retries_then_accept(
    p: RetryPolicy,
    n: usize,
    st: ExecutionAttempt,
    script: Seq<Outcome>,
    jitters: Seq<u64>,
    k: nat,
    deadline: u64,
)
    requires
        p.wf(),
        n >= 1,
        attempt_wf(p, n, st),
        retries_then_accept(script, k),
        jitters.len() == script.len(),
        st.attempt + k + 1 <= p.max_attempts,
        st.total_delay + pause_total(p, st.backoff, jitters, k) < deadline,
    ensures
        run(p, n, st, script, jitters, deadline).1 == (Step::Accepted {
            node_index: ((st.node_index + k) % (n as int)) as usize,
        }),
        run(p, n, st, script, jitters, deadline).0.attempt == st.attempt + k + 1,
        run(p, n, st, script, jitters, deadline).0.total_delay == st.total_delay + pause_total(
            p,
            st.backoff,
            jitters,
            k,
        ),
    decreases k,
{
    if k == 0 {
        assert(script[0] matches Outcome::Precheck(s) && precheck_class(s) == PrecheckClass::Accepted);
        assert((st.node_index as int) % (n as int) == st.node_index as int) by {
            vstd::arithmetic::div_mod::lemma_small_mod(st.node_index as nat, n as nat);
        }
    } else {
        assert(script[0] matches Outcome::Precheck(s) && precheck_class(s) == PrecheckClass::Retryable);
        lemma_pause_total_bounds(p, next_backoff(p, st.backoff), jitters.drop_first(), (k - 1) as nat);
        let (st1, step) = step_spec(p, n, st, script[0], jitters[0], st.total_delay, deadline);
        assert(step is Send);
        let rest = script.drop_first();
        assert(retries_then_accept(rest, (k - 1) as nat)) by {
            assert forall|i: int| 0 <= i < k - 1 implies (#[trigger] rest[i] matches Outcome::Precheck(s)
                && precheck_class(s) == PrecheckClass::Retryable) by {
                assert(rest[i] == script[i + 1]);
            }
            assert(rest[k - 1] == script[k as int]);
        }
        lemma_run_retries_then_accept(p, n, st1, rest, jitters.drop_first(), (k - 1) as nat, deadline);
        let x = st.node_index + 1;
        let y = k - 1;
        assert(((x % (n as int)) + y) % (n as int) == (x + y) % (n as int)) by {
            lemma_add_mod_noop(x % (n as int), y, n as int);
            lemma_add_mod_noop(x, y, n as int);
            lemma_mod_twice(x, n as int);
        }
    }
}

/// An execution whose nodes answer `k` times with a retryable code and then
/// accept succeeds after exactly `k + 1` attempts, having paused for at
/// least the sum of the first `k` backoffs (exactly the sum of the jittered
/// pauses), provided the attempt budget and the deadline allow that many.
pub proof fn lemma_accepted_after_retries(
    p: RetryPolicy,
    n: usize,
    script: Seq<Outcome>,
    jitters: Seq<u64>,
    k: nat,
    deadline: u64,
)
    requires
        p.wf(),
        n >= 1,
        retries_then_accept(script, k),
        jitters.len() == script.len(),
        k + 1 <= p.max_attempts,
        pause_total(p, p.min_backoff, jitters, k) < deadline,
    ensures
        run(p, n, initial_attempt(p), script, jitters, deadline).1 is Accepted,
        run(p, n, initial_attempt(p), script, jitters, deadline).0.attempt == k + 1,
        run(p, n, initial_attempt(p), script, jitters, deadline).0.total_delay == pause_total(
            p,
            p.min_backoff,
            jitters,
            k,
        ),
        run(p, n, initial_attempt(p), script, jitters, deadline).0.total_delay >= backoff_total(
            p,
            p.min_backoff,
            k,
        ),
{
    lemma_run_retries_then_accept(p, n, initial_attempt(p), script, jitters, k, deadline);
    lemma_pause_total_bounds(p, p.min_backoff, jitters, k);
}

/// A permanent rejection on the first attempt ends the execution at once:
/// one attempt, no pause, and the rejecting code is reported.
pub proof fn lemma_permanent_rejection_immediate(
    p: RetryPolicy,
    n: usize,
    script: Seq<Outcome>,
    jitters: Seq<u64>,
    deadline: u64,
)
    requires
        script.len() >= 1,
        jitters.len() >= 1,
        script[0] matches Outcome::Precheck(s) && precheck_class(s) == PrecheckClass::Permanent,
    ensures
        run(p, n, initial_attempt(p), script, jitters, deadline).1 == (Step::Rejected { status: script[0]->Precheck_0 }),
        run(p, n, initial_attempt(p), script, jitters, deadline).0.attempt == 1,
        run(p, n, initial_attempt(p), script, jitters, deadline).0.total_delay == 0,
{
}

} // verus!
