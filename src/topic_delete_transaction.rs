//! Deleting a consensus topic.
use vstd::prelude::*;
use crate::entity_id::{checksum_valid, is_checksum_error, validate_optional_checksum, AccountId, LedgerId, TopicId};
use crate::error::Error;
use crate::transaction::{ServiceMethod, Transaction, TransactionBodyData, TransactionData};
use crate::transaction_id::TransactionId;

verus! {

/// Deletes a topic.
///
/// No more transactions or queries on the topic will succeed. If the topic has
/// an admin key, this transaction must be signed by that key.
pub type TopicDeleteTransaction = Transaction<TopicDeleteTransactionData>;

#[derive(Clone, Copy, Debug, Default, PartialEq, Eq)]
pub struct TopicDeleteTransactionData {
    /// The topic which is being deleted in this transaction.
    pub topic_id: Option<TopicId>,
}

impl TopicDeleteTransaction {
    pub fn new() -> (r: Self)
        ensures
            r.body.data == (TopicDeleteTransactionData { topic_id: None }),
            r.body.node_account_ids is None,
            r.body.transaction_id is None,
            r.body.max_transaction_fee is None,
            r.body.transaction_valid_duration is None,
            r.frozen@ is None,
    {
        Transaction::with_data(TopicDeleteTransactionData { topic_id: None })
    }

    /// Returns the topic which is being deleted in this transaction.
    pub fn get_topic_id(&self) -> (r: Option<TopicId>)
        ensures
            r == self.body.data.topic_id,
    {
        self.body.data.topic_id
    }

    /// Sets the topic which is being deleted in this transaction.
    pub fn topic_id(&mut self, topic_id: TopicId) -> (r: &mut Self)
        ensures
            r.body.data == (TopicDeleteTransactionData { topic_id: Some(topic_id), ..old(self).body.data }),
            r.body.node_account_ids == old(self).body.node_account_ids,
            r.body.transaction_id == old(self).body.transaction_id,
            r.body.max_transaction_fee == old(self).body.max_transaction_fee,
            r.body.transaction_valid_duration == old(self).body.transaction_valid_duration,
            r.frozen == old(self).frozen,
            *final(self) == *final(r),
    {
        self.body.data.topic_id = Some(topic_id);
        self
    }
}

impl TransactionData for TopicDeleteTransactionData {
    open spec fn body_data(&self) -> TransactionBodyData {
        TransactionBodyData::ConsensusDeleteTopic { topic_id: self.topic_id }
    }

    open spec fn checksums_valid(&self, ledger: Seq<u8>) -> bool {
        (self.topic_id matches Some(e) ==> checksum_valid(e, ledger))
    }

    open spec fn checksum_failure(&self, ledger: Seq<u8>, e: Error) -> bool {
        self.topic_id matches Some(id) && is_checksum_error(e, id, ledger)
    }

    open spec fn method(&self) -> ServiceMethod {
        ServiceMethod::DeleteTopic
    }

    fn to_transaction_data_protobuf(
        &self,
        node_account_id: AccountId,
        transaction_id: &TransactionId,
    ) -> (r: TransactionBodyData) {
        TransactionBodyData::ConsensusDeleteTopic { topic_id: self.topic_id }
    }

    fn validate_checksums_for_ledger_id(&self, ledger_id: &LedgerId) -> (r: Result<(), Error>) {
        validate_optional_checksum(&self.topic_id, ledger_id)
    }

    fn service_method(&self) -> (r: ServiceMethod) {
        ServiceMethod::DeleteTopic
    }
}

} // verus!
