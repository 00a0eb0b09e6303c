//! Deleting a smart contract and sending its remaining balance elsewhere.
use vstd::prelude::*;
use crate::entity_id::{AccountAddress, AccountId, ContractId, LedgerId};
use crate::error::Error;
use crate::transaction::{Obtainers, ServiceMethod, Transaction, TransactionBodyData, TransactionData};
use crate::transaction_id::TransactionId;

verus! {

/// Marks a contract as deleted and transfers its remaining balance, if any,
/// to a designated receiver.
pub type ContractDeleteTransaction = Transaction<ContractDeleteTransactionData>;

#[derive(Clone, Copy, Debug, Default, PartialEq, Eq)]
pub struct ContractDeleteTransactionData {
    pub delete_contract_id: Option<ContractId>,
    pub transfer_account_id: Option<AccountAddress>,
    pub transfer_contract_id: Option<ContractId>,
}

/// The receiver of the balance: named only when exactly one kind is set.
pub open spec fn obtainers_of(d: ContractDeleteTransactionData) -> Option<Obtainers> {
    match (d.transfer_account_id, d.transfer_contract_id) {
        (Some(a), None) => Some(Obtainers::TransferAccountId(a)),
        (None, Some(c)) => Some(Obtainers::TransferContractId(c)),
        _ => None,
    }
}

impl ContractDeleteTransaction {
    pub fn new() -> (r: Self)
        ensures
            r.body.data == (ContractDeleteTransactionData {
                delete_contract_id: None,
                transfer_account_id: None,
                transfer_contract_id: None,
            }),
            r.body.node_account_ids is None,
            r.body.transaction_id is None,
            r.body.max_transaction_fee is None,
            r.body.transaction_valid_duration is None,
            r.frozen@ is None,
    {
        Transaction::with_data(
            ContractDeleteTransactionData {
                delete_contract_id: None,
                transfer_account_id: None,
                transfer_contract_id: None,
            },
        )
    }

    /// Sets the contract ID which should be deleted.
    pub fn delete_contract_id(&mut self, id: ContractId) -> (r: &mut Self)
        ensures
            r.body.data == (ContractDeleteTransactionData { delete_contract_id: Some(id), ..old(self).body.data }),
            r.body.node_account_ids == old(self).body.node_account_ids,
            r.body.transaction_id == old(self).body.transaction_id,
            r.body.max_transaction_fee == old(self).body.max_transaction_fee,
            r.body.transaction_valid_duration == old(self).body.transaction_valid_duration,
            r.frozen == old(self).frozen,
            *final(self) == *final(r),
    {
        self.body.data.delete_contract_id = Some(id);
        self
    }

    /// Sets the account which will receive all remaining hbars.
    pub fn transfer_account_id(&mut self, id: AccountAddress) -> (r: &mut Self)
        ensures
            r.body.data == (ContractDeleteTransactionData { transfer_account_id: Some(id), ..old(self).body.data }),
            r.body.node_account_ids == old(self).body.node_account_ids,
            r.body.transaction_id == old(self).body.transaction_id,
            r.body.max_transaction_fee == old(self).body.max_transaction_fee,
            r.body.transaction_valid_duration == old(self).body.transaction_valid_duration,
            r.frozen == old(self).frozen,
            *final(self) == *final(r),
    {
        self.body.data.transfer_account_id = Some(id);
        self
    }

    /// Sets the contract ID which will receive all remaining hbars.
    pub fn transfer_contract_id(&mut self, id: ContractId) -> (r: &mut Self)
        ensures
            r.body.data == (ContractDeleteTransactionData { transfer_contract_id: Some(id), ..old(self).body.data }),
            r.body.node_account_ids == old(self).body.node_account_ids,
            r.body.transaction_id == old(self).body.transaction_id,
            r.body.max_transaction_fee == old(self).body.max_transaction_fee,
            r.body.transaction_valid_duration == old(self).body.transaction_valid_duration,
            r.frozen == old(self).frozen,
            *final(self) == *final(r),
    {
        self.body.data.transfer_contract_id = Some(id);
        self
    }
}

impl TransactionData for ContractDeleteTransactionData {
    open spec fn body_data(&self) -> TransactionBodyData {
        TransactionBodyData::ContractDeleteInstance {
            contract_id: self.delete_contract_id,
            permanent_removal: false,
            obtainers: obtainers_of(*self),
        }
    }

    open spec fn checksums_valid(&self, ledger: Seq<u8>) -> bool {
        true
    }

    open spec fn checksum_failure(&self, ledger: Seq<u8>, e: Error) -> bool {
        false
    }

    open spec fn method(&self) -> ServiceMethod {
        ServiceMethod::DeleteContract
    }

    fn to_transaction_data_protobuf(
        &self,
        node_account_id: AccountId,
        transaction_id: &TransactionId,
    ) -> (r: TransactionBodyData) {
        let obtainers = match (self.transfer_account_id, self.transfer_contract_id) {
            (Some(account_id), None) => Some(Obtainers::TransferAccountId(account_id)),
            (None, Some(contract_id)) => Some(Obtainers::TransferContractId(contract_id)),
            _ => None,
        };
        TransactionBodyData::ContractDeleteInstance {
            contract_id: self.delete_contract_id,
            permanent_removal: false,
            obtainers,
        }
    }

    fn validate_checksums_for_ledger_id(&self, ledger_id: &LedgerId) -> (r: Result<(), Error>) {
        Ok(())
    }

    fn service_method(&self) -> (r: ServiceMethod) {
        ServiceMethod::DeleteContract
    }
}

} // verus!
