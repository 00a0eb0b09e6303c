use hedera_exec::contract_delete_transaction::ContractDeleteTransaction;
use hedera_exec::entity_id::{checksum_for, AccountAddress, EntityId, LedgerId};
use hedera_exec::error::Error;
use hedera_exec::token_pause_transaction::{TokenPauseTransaction, TokenPauseTransactionData};
use hedera_exec::token_revoke_kyc_transaction::TokenRevokeKycTransaction;
use hedera_exec::token_unfreeze_transaction::TokenUnfreezeTransaction;
use hedera_exec::topic_delete_transaction::{TopicDeleteTransaction, TopicDeleteTransactionData};
use hedera_exec::transaction::{
    FreezeContext, Obtainers, ServiceMethod, TransactionBodyData, TransactionData,
};
use hedera_exec::transaction_id::{TransactionId, TransactionIdGenerator};

fn id(num: u64) -> EntityId {
    EntityId::from_num(num)
}

fn context(operator: Option<EntityId>, nodes: Vec<EntityId>) -> FreezeContext {
    FreezeContext {
        operator_account_id: operator,
        default_node_account_ids: nodes,
        default_valid_duration: 120,
        default_max_transaction_fee: 200_000_000,
        ledger_id: None,
        now: 1_000,
    }
}

fn tx_id(num: u64) -> TransactionId {
    TransactionId { account_id: id(num), valid_start: 7, nonce: None, scheduled: false }
}

#[test]
fn token_pause_sets_and_gets_token() {
    let mut t = TokenPauseTransaction::new();
    assert_eq!(t.get_token_id(), None);
    t.token_id(id(1001));
    assert_eq!(t.get_token_id(), Some(id(1001)));
    assert_eq!(
        t.body.data.to_transaction_data_protobuf(id(3), &tx_id(2)),
        TransactionBodyData::TokenPause { token: Some(id(1001)) }
    );
    assert_eq!(t.body.data.service_method(), ServiceMethod::PauseToken);
}

#[test]
fn token_revoke_kyc_body() {
    let mut t = TokenRevokeKycTransaction::new();
    t.account_id(id(1001)).token_id(id(1002));
    assert_eq!(t.body.data.account_id, Some(id(1001)));
    assert_eq!(t.body.data.token_id, Some(id(1002)));
    assert_eq!(
        t.body.data.to_transaction_data_protobuf(id(3), &tx_id(2)),
        TransactionBodyData::TokenRevokeKyc { token: Some(id(1002)), account: Some(id(1001)) }
    );
    assert_eq!(t.body.data.service_method(), ServiceMethod::RevokeKycFromTokenAccount);
}

#[test]
fn token_unfreeze_body() {
    let mut t = TokenUnfreezeTransaction::new();
    t.token_id(id(5)).account_id(id(6));
    assert_eq!(
        t.body.data.to_transaction_data_protobuf(id(3), &tx_id(2)),
        TransactionBodyData::TokenUnfreeze { account: Some(id(6)), token: Some(id(5)) }
    );
    assert_eq!(t.body.data.service_method(), ServiceMethod::UnfreezeTokenAccount);
}

#[test]
fn topic_delete_sets_and_gets_topic() {
    let mut t = TopicDeleteTransaction::new();
    t.topic_id(id(1001));
    assert_eq!(t.get_topic_id(), Some(id(1001)));
    assert_eq!(
        t.body.data.to_transaction_data_protobuf(id(3), &tx_id(2)),
        TransactionBodyData::ConsensusDeleteTopic { topic_id: Some(id(1001)) }
    );
    assert_eq!(t.body.data.service_method(), ServiceMethod::DeleteTopic);
}

#[test]
fn contract_delete_obtainers() {
    let mut t = ContractDeleteTransaction::new();
    t.delete_contract_id(id(9));
    assert_eq!(
        t.body.data.to_transaction_data_protobuf(id(3), &tx_id(2)),
        TransactionBodyData::ContractDeleteInstance {
            contract_id: Some(id(9)),
            permanent_removal: false,
            obtainers: None
        }
    );
    t.transfer_account_id(AccountAddress::AccountId(id(10)));
    assert_eq!(
        t.body.data.to_transaction_data_protobuf(id(3), &tx_id(2)),
        TransactionBodyData::ContractDeleteInstance {
            contract_id: Some(id(9)),
            permanent_removal: false,
            obtainers: Some(Obtainers::TransferAccountId(AccountAddress::AccountId(id(10))))
        }
    );
    t.transfer_contract_id(id(11));
    assert_eq!(
        t.body.data.to_transaction_data_protobuf(id(3), &tx_id(2)),
        TransactionBodyData::ContractDeleteInstance {
            contract_id: Some(id(9)),
            permanent_removal: false,
            obtainers: None
        }
    );
    let mut u = ContractDeleteTransaction::new();
    u.transfer_contract_id(id(11));
    assert_eq!(
        u.body.data.to_transaction_data_protobuf(id(3), &tx_id(2)),
        TransactionBodyData::ContractDeleteInstance {
            contract_id: None,
            permanent_removal: false,
            obtainers: Some(Obtainers::TransferContractId(id(11)))
        }
    );
}

#[test]
fn freeze_builds_one_body_per_node() {
    let mut t = TokenPauseTransaction::new();
    t.token_id(id(1001));
    let mut ids = TransactionIdGenerator::new();
    let ctx = context(Some(id(2)), vec![id(3), id(4), id(5)]);
    assert_eq!(t.freeze_with(&ctx, &mut ids), Ok(()));
    let f = t.frozen.get().as_ref().unwrap();
    assert_eq!(f.node_account_ids, vec![id(3), id(4), id(5)]);
    assert_eq!(f.bodies.len(), 3);
    assert_eq!(f.transaction_id.account_id, id(2));
    assert_eq!(f.transaction_id.valid_start, 1_000);
    assert_eq!(f.method, ServiceMethod::PauseToken);
    for (i, b) in f.bodies.iter().enumerate() {
        assert_eq!(b.node_account_id, f.node_account_ids[i]);
        assert_eq!(b.transaction_id, f.transaction_id);
        assert_eq!(b.transaction_fee, 200_000_000);
        assert_eq!(b.valid_duration, 120);
        assert_eq!(b.data, TransactionBodyData::TokenPause { token: Some(id(1001)) });
    }
}

#[test]
fn freeze_prefers_explicit_nodes_and_fee() {
    let mut t = TopicDeleteTransaction::new();
    t.topic_id(id(1)).node_account_ids(vec![id(7)]).max_transaction_fee(5);
    let mut ids = TransactionIdGenerator::new();
    assert_eq!(t.freeze_with(&context(Some(id(2)), vec![id(3), id(4)]), &mut ids), Ok(()));
    let f = t.frozen.get().as_ref().unwrap();
    assert_eq!(f.node_account_ids, vec![id(7)]);
    assert_eq!(f.bodies[0].transaction_fee, 5);
}

#[test]
fn freeze_without_payer_fails() {
    let mut t = TokenPauseTransaction::new();
    let mut ids = TransactionIdGenerator::new();
    assert_eq!(
        t.freeze_with(&context(None, vec![id(3)]), &mut ids),
        Err(Error::NoPayerAccountOrTransactionId)
    );
    assert!(t.frozen.get().is_none());
}

#[test]
fn freeze_with_explicit_id_needs_no_operator() {
    let mut t = TokenPauseTransaction::new();
    t.transaction_id(tx_id(44));
    let mut ids = TransactionIdGenerator::new();
    assert_eq!(t.freeze_with(&context(None, vec![id(3)]), &mut ids), Ok(()));
    assert_eq!(t.frozen.get().as_ref().unwrap().transaction_id, tx_id(44));
    assert_eq!(ids.last_valid_start, 0);
}

#[test]
fn freeze_without_nodes_fails() {
    let mut t = TokenPauseTransaction::new();
    let mut ids = TransactionIdGenerator::new();
    assert_eq!(t.freeze_with(&context(Some(id(2)), vec![]), &mut ids), Err(Error::NoNodeAccountIds));
}

#[test]
fn freeze_rejects_bad_checksum() {
    let ledger = LedgerId { bytes: vec![0] };
    let good = checksum_for(0, 0, 1001, &ledger);
    let mut bad = good;
    bad[0] = if good[0] == b'a' { b'b' } else { b'a' };
    let mut t = TokenPauseTransaction::new();
    t.token_id(EntityId { shard: 0, realm: 0, num: 1001, checksum: Some(bad) });
    let mut ctx = context(Some(id(2)), vec![id(3)]);
    ctx.ledger_id = Some(LedgerId { bytes: vec![0] });
    let mut ids = TransactionIdGenerator::new();
    assert_eq!(
        t.freeze_with(&ctx, &mut ids),
        Err(Error::BadEntityId {
            shard: 0,
            realm: 0,
            num: 1001,
            present_checksum: bad,
            expected_checksum: good
        })
    );
    t.token_id(EntityId { shard: 0, realm: 0, num: 1001, checksum: Some(good) });
    assert_eq!(t.freeze_with(&ctx, &mut ids), Ok(()));
}

#[test]
fn refreeze_keeps_id_and_signed_refreeze_fails() {
    let mut t = TokenRevokeKycTransaction::new();
    t.account_id(id(1001)).token_id(id(1002));
    let mut ids = TransactionIdGenerator::new();
    let ctx = context(Some(id(2)), vec![id(3), id(4)]);
    assert_eq!(t.freeze_with(&ctx, &mut ids), Ok(()));
    let first = t.frozen.get().as_ref().unwrap().transaction_id;
    assert_eq!(t.freeze_with(&ctx, &mut ids), Ok(()));
    assert_eq!(t.frozen.get().as_ref().unwrap().transaction_id, first);
    assert_eq!(t.add_signature(vec![1, 2, 3], vec![vec![9], vec![8]]), Ok(()));
    assert_eq!(t.frozen.get().as_ref().unwrap().signature_sets.len(), 1);
    assert_eq!(t.freeze_with(&ctx, &mut ids), Err(Error::AlreadyFrozen));
    assert_eq!(t.frozen.get().as_ref().unwrap().transaction_id, first);
}

#[test]
fn signing_checks_state_and_count() {
    let mut t = TokenPauseTransaction::new();
    assert_eq!(t.add_signature(vec![1], vec![vec![2]]), Err(Error::NotFrozen));
    let mut ids = TransactionIdGenerator::new();
    assert_eq!(t.freeze_with(&context(Some(id(2)), vec![id(3), id(4)]), &mut ids), Ok(()));
    assert_eq!(
        t.add_signature(vec![1], vec![vec![2]]),
        Err(Error::SignatureCountMismatch { expected: 2, given: 1 })
    );
    assert_eq!(t.add_signature(vec![1], vec![vec![2], vec![3]]), Ok(()));
    assert_eq!(t.add_signature(vec![5], vec![vec![6], vec![7]]), Ok(()));
    assert_eq!(t.frozen.get().as_ref().unwrap().signature_sets.len(), 2);
}

#[test]
fn generated_ids_strictly_increase() {
    let mut ids = TransactionIdGenerator::new();
    let a = ids.generate(id(2), 50);
    let b = ids.generate(id(2), 50);
    let c = ids.generate(id(2), 10);
    let d = ids.generate(id(2), 90);
    assert_eq!(a.valid_start, 50);
    assert_eq!(b.valid_start, 51);
    assert_eq!(c.valid_start, 52);
    assert_eq!(d.valid_start, 90);
}

#[test]
fn contract_delete_to_evm_address() {
    let mut t = ContractDeleteTransaction::new();
    let evm = [7u8; 20];
    t.delete_contract_id(id(9)).transfer_account_id(AccountAddress::EvmAddress(evm));
    assert_eq!(
        t.body.data.to_transaction_data_protobuf(id(3), &tx_id(2)),
        TransactionBodyData::ContractDeleteInstance {
            contract_id: Some(id(9)),
            permanent_removal: false,
            obtainers: Some(Obtainers::TransferAccountId(AccountAddress::EvmAddress(evm)))
        }
    );
}

#[test]
fn validators_report_the_bad_entity() {
    let ledger = LedgerId { bytes: vec![1] };
    let good = checksum_for(0, 0, 55, &ledger);
    let mut bad = good;
    bad[4] = if good[4] == b'z' { b'y' } else { b'z' };
    let e = EntityId { shard: 0, realm: 0, num: 55, checksum: Some(bad) };
    let expected = Err(Error::BadEntityId { shard: 0, realm: 0, num: 55, present_checksum: bad, expected_checksum: good });
    assert_eq!(TokenPauseTransactionData { token_id: Some(e) }.validate_checksums_for_ledger_id(&ledger), expected);
    assert_eq!(TopicDeleteTransactionData { topic_id: Some(e) }.validate_checksums_for_ledger_id(&ledger), expected);
    assert_eq!(TokenPauseTransactionData { token_id: None }.validate_checksums_for_ledger_id(&ledger), Ok(()));
}
