//! Execution core of a ledger client: operation builders, request freezing,
//! retry decisions, query payment negotiation, receipt polling and the node
//! registry.
pub mod contract_delete_transaction;
pub mod engine;
pub mod entity_id;
pub mod error;
pub mod network;
pub mod payment;
pub mod receipt;
pub mod status;
pub mod token_pause_transaction;
pub mod token_revoke_kyc_transaction;
pub mod token_unfreeze_transaction;
pub mod topic_delete_transaction;
pub mod transaction;
pub mod transaction_id;
pub mod transaction_response;
