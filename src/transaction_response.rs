//! What a node answers when it accepts a transaction at precheck.
use vstd::prelude::*;
use crate::entity_id::AccountId;
use crate::receipt::{PollStep, ReceiptPoll};
use crate::transaction_id::TransactionId;

verus! {

/// The reply to a submitted transaction: it passed precheck and the node
/// will submit it to the network. Its consensus result is learned later
/// from a receipt.
pub struct TransactionResponse {
    /// The node that the transaction was submitted to.
    pub node_account_id: AccountId,
    /// The client-generated id of the submitted transaction.
    pub transaction_id: TransactionId,
    /// The client-generated hash of the submitted transaction.
    pub transaction_hash: Vec<u8>,
}

impl TransactionResponse {
    /// The receipt polling run for this transaction, with failing statuses
    /// turned into errors, and the nodes it asks: only the node the
    /// transaction was submitted to. Node `i` of a poll step is `r.2[i]`.
    pub fn receipt_poll(&self, deadline: u64) -> (r: (ReceiptPoll, PollStep, Vec<AccountId>))
        ensures
            r.2@ == seq![self.node_account_id],
            r.0 == (ReceiptPoll {
                transaction_id: self.transaction_id,
                node_count: 1,
                node_index: 0,
                validate_status: true,
                deadline,
                total_sleep: 0,
            }),
            r.1 == (PollStep::Query { node_index: 0, delay: 0 }),
    {
        let (poll, step) = ReceiptPoll::new(self.transaction_id, 1, true, deadline);
        let mut nodes: Vec<AccountId> = Vec::new();
        nodes.push(self.node_account_id);
        proof {
            assert(nodes@ =~= seq![self.node_account_id]);
        }
        (poll, step, nodes)
    }
}

} // verus!
