//! Pausing a token.
use vstd::prelude::*;
use crate::entity_id::{checksum_valid, is_checksum_error, validate_optional_checksum, AccountId, LedgerId, TokenId};
use crate::error::Error;
use crate::transaction::{ServiceMethod, Transaction, TransactionBodyData, TransactionData};
use crate::transaction_id::TransactionId;

verus! {

/// Pauses the token from being involved in any kind of transaction until it is unpaused.
///
/// Must be signed with the token's pause key. The operation is idempotent.
pub type TokenPauseTransaction = Transaction<TokenPauseTransactionData>;

#[derive(Clone, Copy, Debug, Default, PartialEq, Eq)]
pub struct TokenPauseTransactionData {
    /// The token to be paused.
    pub token_id: Option<TokenId>,
}

impl TokenPauseTransaction {
    pub fn new() -> (r: Self)
        ensures
            r.body.data == (TokenPauseTransactionData { token_id: None }),
            r.body.node_account_ids is None,
            r.body.transaction_id is None,
            r.body.max_transaction_fee is None,
            r.body.transaction_valid_duration is None,
            r.frozen@ is None,
    {
        Transaction::with_data(TokenPauseTransactionData { token_id: None })
    }

    /// Returns the token to be paused.
    pub fn get_token_id(&self) -> (r: Option<TokenId>)
        ensures
            r == self.body.data.token_id,
    {
        self.body.data.token_id
    }

    /// Sets the token to be paused.
    pub fn token_id(&mut self, token_id: TokenId) -> (r: &mut Self)
        ensures
            r.body.data == (TokenPauseTransactionData { token_id: Some(token_id), ..old(self).body.data }),
            r.body.node_account_ids == old(self).body.node_account_ids,
            r.body.transaction_id == old(self).body.transaction_id,
            r.body.max_transaction_fee == old(self).body.max_transaction_fee,
            r.body.transaction_valid_duration == old(self).body.transaction_valid_duration,
            r.frozen == old(self).frozen,
            *final(self) == *final(r),
    {
        self.body.data.token_id = Some(token_id);
        self
    }
}

impl TransactionData for TokenPauseTransactionData {
    open spec fn body_data(&self) -> TransactionBodyData {
        TransactionBodyData::TokenPause { token: self.token_id }
    }

    open spec fn checksums_valid(&self, ledger: Seq<u8>) -> bool {
        (self.token_id matches Some(e) ==> checksum_valid(e, ledger))
    }

    open spec fn checksum_failure(&self, ledger: Seq<u8>, e: Error) -> bool {
        self.token_id matches Some(id) && is_checksum_error(e, id, ledger)
    }

    open spec fn method(&self) -> ServiceMethod {
        ServiceMethod::PauseToken
    }

    fn to_transaction_data_protobuf(
        &self,
        node_account_id: AccountId,
        transaction_id: &TransactionId,
    ) -> (r: TransactionBodyData) {
        TransactionBodyData::TokenPause { token: self.token_id }
    }

    fn validate_checksums_for_ledger_id(&self, ledger_id: &LedgerId) -> (r: Result<(), Error>) {
        validate_optional_checksum(&self.token_id, ledger_id)
    }

    fn service_method(&self) -> (r: ServiceMethod) {
        ServiceMethod::PauseToken
    }
}

} // verus!
