//! Unfreezing transfers of a token for an account.
use vstd::prelude::*;
use crate::entity_id::{AccountId, LedgerId, TokenId};
use crate::error::Error;
use crate::transaction::{ServiceMethod, Transaction, TransactionBodyData, TransactionData};
use crate::transaction_id::TransactionId;

verus! {

/// Unfreezes transfers of the specified token for the account.
///
/// Must be signed by the token's freeze key. The operation is idempotent.
pub type TokenUnfreezeTransaction = Transaction<TokenUnfreezeTransactionData>;

#[derive(Clone, Copy, Debug, Default, PartialEq, Eq)]
pub struct TokenUnfreezeTransactionData {
    /// The account to be unfrozen.
    pub account_id: Option<AccountId>,
    /// The token for which this account will be unfrozen.
    pub token_id: Option<TokenId>,
}

impl TokenUnfreezeTransaction {
    pub fn new() -> (r: Self)
        ensures
            r.body.data == (TokenUnfreezeTransactionData { account_id: None, token_id: None }),
            r.body.node_account_ids is None,
            r.body.transaction_id is None,
            r.body.max_transaction_fee is None,
            r.body.transaction_valid_duration is None,
            r.frozen@ is None,
    {
        Transaction::with_data(TokenUnfreezeTransactionData { account_id: None, token_id: None })
    }

    /// Sets the account to be unfrozen.
    pub fn account_id(&mut self, account_id: AccountId) -> (r: &mut Self)
        ensures
            r.body.data == (TokenUnfreezeTransactionData { account_id: Some(account_id), ..old(self).body.data }),
            r.body.node_account_ids == old(self).body.node_account_ids,
            r.body.transaction_id == old(self).body.transaction_id,
            r.body.max_transaction_fee == old(self).body.max_transaction_fee,
            r.body.transaction_valid_duration == old(self).body.transaction_valid_duration,
            r.frozen == old(self).frozen,
            *final(self) == *final(r),
    {
        self.body.data.account_id = Some(account_id);
        self
    }

    /// Sets the token for which this account will be unfrozen.
    pub fn token_id(&mut self, token_id: TokenId) -> (r: &mut Self)
        ensures
            r.body.data == (TokenUnfreezeTransactionData { token_id: Some(token_id), ..old(self).body.data }),
            r.body.node_account_ids == old(self).body.node_account_ids,
            r.body.transaction_id == old(self).body.transaction_id,
            r.body.max_transaction_fee == old(self).body.max_transaction_fee,
            r.body.transaction_valid_duration == old(self).body.transaction_valid_duration,
            r.frozen == old(self).frozen,
            *final(self) == *final(r),
    {
        self.body.data.token_id = Some(token_id);
        self
    }
}

impl TransactionData for TokenUnfreezeTransactionData {
    open spec fn body_data(&self) -> TransactionBodyData {
        TransactionBodyData::TokenUnfreeze { account: self.account_id, token: self.token_id }
    }

    open spec fn checksums_valid(&self, ledger: Seq<u8>) -> bool {
        true
    }

    open spec fn checksum_failure(&self, ledger: Seq<u8>, e: Error) -> bool {
        false
    }

    open spec fn method(&self) -> ServiceMethod {
        ServiceMethod::UnfreezeTokenAccount
    }

    fn to_transaction_data_protobuf(
        &self,
        node_account_id: AccountId,
        transaction_id: &TransactionId,
    ) -> (r: TransactionBodyData) {
        let account = self.account_id;
        let token = self.token_id;
        TransactionBodyData::TokenUnfreeze { account, token }
    }

    fn validate_checksums_for_ledger_id(&self, ledger_id: &LedgerId) -> (r: Result<(), Error>) {
        Ok(())
    }

    fn service_method(&self) -> (r: ServiceMethod) {
        ServiceMethod::UnfreezeTokenAccount
    }
}

} // verus!
