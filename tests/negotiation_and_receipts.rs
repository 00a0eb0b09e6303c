use hedera_exec::entity_id::EntityId;
use hedera_exec::error::Error;
use hedera_exec::network::{select_default_nodes, NodeRegistry};
use hedera_exec::payment::{
    paid_attempt_rejected, payment_after_probe, plan_query, probe_rejected, query_payment_body, QueryPlan,
};
use hedera_exec::transaction::{AccountAmount, TransactionBodyData};
use hedera_exec::receipt::{PollStep, ReceiptObservation, ReceiptPoll, TransactionReceipt, RECEIPT_POLL_INTERVAL};
use hedera_exec::status::Status;
use hedera_exec::transaction_id::TransactionId;
use hedera_exec::transaction_response::TransactionResponse;

fn tx() -> TransactionId {
    TransactionId { account_id: EntityId::from_num(2), valid_start: 9, nonce: None, scheduled: false }
}

fn receipt(status: Status) -> ReceiptObservation {
    ReceiptObservation::Receipt(TransactionReceipt {
        status,
        account_id: None,
        contract_id: None,
        token_id: None,
        topic_id: None,
        exchange_rate: None,
    })
}

#[test]
fn cost_above_ceiling_fails() {
    assert_eq!(plan_query(None), QueryPlan::ProbeCost);
    assert_eq!(
        payment_after_probe(1, 8_000),
        Err(Error::MaxQueryPaymentExceeded { max_query_payment: 1, query_cost: 8_000 })
    );
}

#[test]
fn cost_within_ceiling_is_paid_exactly() {
    assert_eq!(payment_after_probe(10_000, 8_000), Ok(8_000));
    assert_eq!(payment_after_probe(8_000, 8_000), Ok(8_000));
}

#[test]
fn explicit_payment_skips_probe() {
    assert_eq!(plan_query(Some(1)), QueryPlan::Pay { amount: 1 });
    assert_eq!(
        paid_attempt_rejected(Status::InsufficientTxFee, tx()),
        Error::QueryPaymentPreCheckStatus { status: Status::InsufficientTxFee, transaction_id: tx() }
    );
    assert_eq!(
        probe_rejected(Status::InvalidContractId),
        Error::QueryNoPaymentPreCheckStatus { status: Status::InvalidContractId }
    );
}

#[test]
fn receipt_after_two_pending() {
    let (mut poll, first) = ReceiptPoll::new(tx(), 1, true, 10_000);
    assert_eq!(first, PollStep::Query { node_index: 0, delay: 0 });
    let mut sleeps = 0;
    let mut step = first;
    for s in [Status::Unknown, Status::Unknown, Status::Success] {
        step = poll.record(receipt(s), poll.total_sleep);
        if let PollStep::Query { delay, .. } = step {
            assert_eq!(delay, RECEIPT_POLL_INTERVAL);
            sleeps += 1;
        }
    }
    assert_eq!(sleeps, 2);
    assert!(matches!(step, PollStep::Done(r) if r.status == Status::Success));
    assert_eq!(poll.total_sleep, 2 * RECEIPT_POLL_INTERVAL);
}

#[test]
fn pending_receipt_times_out() {
    let (mut poll, _) = ReceiptPoll::new(tx(), 1, true, 1_200);
    let mut step = PollStep::Query { node_index: 0, delay: 0 };
    for _ in 0..10 {
        step = poll.record(receipt(Status::Unknown), poll.total_sleep);
        if !matches!(step, PollStep::Query { .. }) {
            break;
        }
    }
    assert_eq!(step, PollStep::Failed(Error::ReceiptTimeout { transaction_id: tx() }));
    assert_eq!(poll.total_sleep, 1_200);
}

#[test]
fn failing_receipt_validated_or_returned() {
    let (mut poll, _) = ReceiptPoll::new(tx(), 1, true, 1_000);
    assert_eq!(
        poll.record(receipt(Status::TokenNotAssociatedToAccount), 0),
        PollStep::Failed(Error::ReceiptStatus {
            status: Status::TokenNotAssociatedToAccount,
            transaction_id: tx()
        })
    );
    let (mut lax, _) = ReceiptPoll::new(tx(), 1, false, 1_000);
    assert!(matches!(
        lax.record(receipt(Status::TokenNotAssociatedToAccount), 0),
        PollStep::Done(r) if r.status == Status::TokenNotAssociatedToAccount
    ));
}

#[test]
fn unreachable_node_falls_back() {
    let (mut poll, _) = ReceiptPoll::new(tx(), 3, true, 1_000);
    assert_eq!(poll.record(ReceiptObservation::Unreachable, 0), PollStep::Query { node_index: 1, delay: 0 });
    assert_eq!(poll.record(ReceiptObservation::Unreachable, 0), PollStep::Query { node_index: 2, delay: 0 });
    assert_eq!(poll.record(ReceiptObservation::Unreachable, 0), PollStep::Query { node_index: 0, delay: 0 });
}

#[test]
fn response_polls_its_node_with_validation() {
    let r = TransactionResponse { node_account_id: EntityId::from_num(3), transaction_id: tx(), transaction_hash: vec![1, 2] };
    let (poll, step, nodes) = r.receipt_poll(5_000);
    assert_eq!(nodes, vec![EntityId::from_num(3)]);
    assert!(poll.validate_status);
    assert_eq!(poll.node_count, 1);
    assert_eq!(poll.deadline, 5_000);
    assert_eq!(step, PollStep::Query { node_index: 0, delay: 0 });
}

#[test]
fn suspect_node_leaves_and_returns() {
    let ids = vec![EntityId::from_num(3), EntityId::from_num(4), EntityId::from_num(5)];
    let mut reg = NodeRegistry::new(&ids);
    assert_eq!(reg.healthy_nodes(100), ids);
    let i = reg.index_of(EntityId::from_num(4)).unwrap();
    assert_eq!(i, 1);
    reg.mark_suspect(i, 100, 50);
    assert_eq!(reg.healthy_nodes(100), vec![EntityId::from_num(3), EntityId::from_num(5)]);
    assert_eq!(reg.healthy_nodes(149), vec![EntityId::from_num(3), EntityId::from_num(5)]);
    assert_eq!(reg.healthy_nodes(150), ids);
    assert_eq!(reg.index_of(EntityId::from_num(99)), None);
}

#[test]
fn default_nodes_are_a_third() {
    let ids: Vec<EntityId> = (3..12).map(EntityId::from_num).collect();
    assert_eq!(select_default_nodes(&ids, 7), vec![ids[7], ids[8], ids[0]]);
    assert_eq!(select_default_nodes(&ids[..2].to_vec(), 5), vec![ids[1]]);
    assert_eq!(select_default_nodes(&Vec::new(), 5), Vec::<EntityId>::new());
}

#[test]
fn receipt_pause_is_cut_short_at_the_deadline() {
    let (mut poll, _) = ReceiptPoll::new(tx(), 2, true, 1_000);
    assert_eq!(poll.record(receipt(Status::Unknown), 499), PollStep::Query { node_index: 0, delay: RECEIPT_POLL_INTERVAL });
    assert_eq!(poll.record(receipt(Status::Unknown), 999), PollStep::Query { node_index: 0, delay: 1 });
    assert_eq!(
        poll.record(receipt(Status::Unknown), 1_000),
        PollStep::Failed(Error::ReceiptTimeout { transaction_id: tx() })
    );
}

#[test]
fn success_at_the_deadline_is_returned() {
    let (mut poll, _) = ReceiptPoll::new(tx(), 1, true, 1_000);
    assert!(matches!(poll.record(receipt(Status::Success), 1_000), PollStep::Done(r) if r.status == Status::Success));
}

#[test]
fn query_payment_transfers_the_amount() {
    let node = EntityId::from_num(3);
    let body = query_payment_body(tx(), node, 100, 120, 8_000).unwrap();
    assert_eq!(body.node_account_id, node);
    assert_eq!(body.transaction_id, tx());
    assert_eq!(
        body.data,
        TransactionBodyData::CryptoTransfer {
            from: AccountAmount { account_id: EntityId::from_num(2), amount: -8_000 },
            to: AccountAmount { account_id: node, amount: 8_000 },
        }
    );
    assert_eq!(
        query_payment_body(tx(), node, 100, 120, u64::MAX),
        Err(Error::PaymentAmountTooLarge { amount: u64::MAX })
    );
}

#[test]
fn duplicate_nodes_are_kept_once() {
    let ids = vec![EntityId::from_num(3), EntityId::from_num(4), EntityId::from_num(3)];
    let reg = NodeRegistry::new(&ids);
    assert_eq!(reg.healthy_nodes(0), vec![EntityId::from_num(3), EntityId::from_num(4)]);
}

#[test]
fn registry_keeps_first_seen_order() {
    let n = EntityId::from_num;
    let reg = NodeRegistry::new(&vec![n(4), n(3), n(4), n(5), n(3)]);
    assert_eq!(reg.healthy_nodes(0), vec![n(4), n(3), n(5)]);
}
