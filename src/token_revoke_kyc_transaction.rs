//! Revoking KYC from an account for a token.
use vstd::prelude::*;
use crate::entity_id::{AccountId, LedgerId, TokenId};
use crate::error::Error;
use crate::transaction::{ServiceMethod, Transaction, TransactionBodyData, TransactionData};
use crate::transaction_id::TransactionId;

verus! {

/// Revokes KYC from the account for the given token.
///
/// Must be signed by the token's KYC key.
pub type TokenRevokeKycTransaction = Transaction<TokenRevokeKycTransactionData>;

#[derive(Clone, Copy, Debug, Default, PartialEq, Eq)]
pub struct TokenRevokeKycTransactionData {
    /// The account to have their KYC revoked.
    pub account_id: Option<AccountId>,
    /// The token for which this account will have their KYC revoked.
    pub token_id: Option<TokenId>,
}

impl TokenRevokeKycTransaction {
    pub fn new() -> (r: Self)
        ensures
            r.body.data == (TokenRevokeKycTransactionData { account_id: None, token_id: None }),
            r.body.node_account_ids is None,
            r.body.transaction_id is None,
            r.body.max_transaction_fee is None,
            r.body.transaction_valid_duration is None,
            r.frozen@ is None,
    {
        Transaction::with_data(TokenRevokeKycTransactionData { account_id: None, token_id: None })
    }

    /// Sets the account to have their KYC revoked.
    pub fn account_id(&mut self, account_id: AccountId) -> (r: &mut Self)
        ensures
            r.body.data == (TokenRevokeKycTransactionData { account_id: Some(account_id), ..old(self).body.data }),
            r.body.node_account_ids == old(self).body.node_account_ids,
            r.body.transaction_id == old(self).body.transaction_id,
            r.body.max_transaction_fee == old(self).body.max_transaction_fee,
            r.body.transaction_valid_duration == old(self).body.transaction_valid_duration,
            r.frozen == old(self).frozen,
            *final(self) == *final(r),
    {
        self.body.data.account_id = Some(account_id);
        self
    }

    /// Sets the token for which this account will have their KYC revoked.
    pub fn token_id(&mut self, token_id: TokenId) -> (r: &mut Self)
        ensures
            r.body.data == (TokenRevokeKycTransactionData { token_id: Some(token_id), ..old(self).body.data }),
            r.body.node_account_ids == old(self).body.node_account_ids,
            r.body.transaction_id == old(self).body.transaction_id,
            r.body.max_transaction_fee == old(self).body.max_transaction_fee,
            r.body.transaction_valid_duration == old(self).body.transaction_valid_duration,
            r.frozen == old(self).frozen,
            *final(self) == *final(r),
    {
        self.body.data.token_id = Some(token_id);
        self
    }
}

impl TransactionData for TokenRevokeKycTransactionData {
    open spec fn body_data(&self) -> TransactionBodyData {
        TransactionBodyData::TokenRevokeKyc { token: self.token_id, account: self.account_id }
    }

    open spec fn checksums_valid(&self, ledger: Seq<u8>) -> bool {
        true
    }

    open spec fn checksum_failure(&self, ledger: Seq<u8>, e: Error) -> bool {
        false
    }

    open spec fn method(&self) -> ServiceMethod {
        ServiceMethod::RevokeKycFromTokenAccount
    }

    fn to_transaction_data_protobuf(
        &self,
        node_account_id: AccountId,
        transaction_id: &TransactionId,
    ) -> (r: TransactionBodyData) {
        let account = self.account_id;
        let token = self.token_id;
        TransactionBodyData::TokenRevokeKyc { token, account }
    }

    fn validate_checksums_for_ledger_id(&self, ledger_id: &LedgerId) -> (r: Result<(), Error>) {
        Ok(())
    }

    fn service_method(&self) -> (r: ServiceMethod) {
        ServiceMethod::RevokeKycFromTokenAccount
    }
}

} // verus!
