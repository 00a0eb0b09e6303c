//! Operation builders and their freezing into signable per-node requests.
use vstd::prelude::*;
use crate::entity_id::{AccountAddress, AccountId, ContractId, LedgerId, TokenId, TopicId};
use crate::error::Error;
use crate::transaction_id::{next_valid_start, Timestamp, TransactionId, TransactionIdGenerator};

verus! {

/// The network service method that handles an operation.
#[derive(Clone, Copy, Debug, PartialEq, Eq, Structural)]
pub enum ServiceMethod {
    DeleteContract,
    PauseToken,
    RevokeKycFromTokenAccount,
    UnfreezeTokenAccount,
    DeleteTopic,
}

/// Who receives the remaining balance of a deleted contract.
#[derive(Clone, Copy, Debug, PartialEq, Eq)]
pub enum Obtainers {
    TransferAccountId(AccountAddress),
    TransferContractId(ContractId),
}

/// A signed change to one account's balance.
#[derive(Clone, Copy, Debug, PartialEq, Eq)]
pub struct AccountAmount {
    pub account_id: AccountId,
    pub amount: i64,
}

/// The operation-specific part of a transaction body, as it goes on the wire.
#[derive(Clone, Copy, Debug, PartialEq, Eq)]
pub enum TransactionBodyData {
    ContractDeleteInstance {
        contract_id: Option<ContractId>,
        permanent_removal: bool,
        obtainers: Option<Obtainers>,
    },
    TokenPause { token: Option<TokenId> },
    TokenRevokeKyc { token: Option<TokenId>, account: Option<AccountId> },
    TokenUnfreeze { account: Option<AccountId>, token: Option<TokenId> },
    ConsensusDeleteTopic { topic_id: Option<TopicId> },
    /// A transfer from one account to another, as used to pay for queries.
    CryptoTransfer { from: AccountAmount, to: AccountAmount },
}

/// What each kind of operation supplies to the request assembler.
pub trait TransactionData {
    /// The wire payload of the operation.
    spec fn body_data(&self) -> TransactionBodyData;

    /// Whether the checksum-sensitive entity fields pass on `ledger`.
    spec fn checksums_valid(&self, ledger: Seq<u8>) -> bool;

    /// Whether `e` is the error that checksum validation on `ledger` reports.
    spec fn checksum_failure(&self, ledger: Seq<u8>, e: Error) -> bool;

    /// The service method that handles the operation.
    spec fn method(&self) -> ServiceMethod;

    /// The wire payload for the given node and transaction id.
    fn to_transaction_data_protobuf(
        &self,
        node_account_id: AccountId,
        transaction_id: &TransactionId,
    ) -> (r: TransactionBodyData)
        ensures
            r == self.body_data(),
    ;

    /// Validates the checksums of the checksum-sensitive entity fields.
    fn validate_checksums_for_ledger_id(&self, ledger_id: &LedgerId) -> (r: Result<(), Error>)
        ensures
            r is Ok <==> self.checksums_valid(ledger_id@),
            r matches Err(e) ==> self.checksum_failure(ledger_id@, e),
    ;

    /// The service method that handles the operation.
    fn service_method(&self) -> (r: ServiceMethod)
        ensures
            r == self.method(),
    ;
}

/// The fields that every transaction carries, around its operation data.
pub struct TransactionBody<D> {
    pub data: D,
    pub node_account_ids: Option<Vec<AccountId>>,
    pub transaction_id: Option<TransactionId>,
    pub max_transaction_fee: Option<u64>,
    pub transaction_valid_duration: Option<u64>,
}

/// One transaction body as sent to one node.
#[derive(Clone, Copy, Debug, PartialEq, Eq)]
pub struct WireBody {
    pub transaction_id: TransactionId,
    pub node_account_id: AccountId,
    pub transaction_fee: u64,
    pub valid_duration: u64,
    pub data: TransactionBodyData,
}

/// A public key with its signature over each per-node body, in node order.
pub struct SignatureSet {
    pub public_key: Vec<u8>,
    pub signatures: Vec<Vec<u8>>,
}

/// An immutable, signable request: one body per target node.
pub struct FrozenRequest {
    pub transaction_id: TransactionId,
    pub method: ServiceMethod,
    pub node_account_ids: Vec<AccountId>,
    pub bodies: Vec<WireBody>,
    pub signature_sets: Vec<SignatureSet>,
}

/// Holds the frozen request of a transaction, once there is one. Only
/// freezing and signing change it; from outside it can only be read.
pub struct FrozenSlot {
    request: Option<FrozenRequest>,
}

impl View for FrozenSlot {
    type V = Option<FrozenRequest>;

    closed spec fn view(&self) -> Option<FrozenRequest> {
        self.request
    }
}

impl FrozenSlot {
    /// The frozen request, once the transaction is frozen.
    pub fn get(&self) -> (r: &Option<FrozenRequest>)
        ensures
            *r == self@,
    {
        &self.request
    }
}

/// A transaction under construction, and once frozen, its frozen request.
pub struct Transaction<D> {
    pub body: TransactionBody<D>,
    pub frozen: FrozenSlot,
}

/// What the client supplies when a transaction is frozen.
pub struct FreezeContext {
    /// The default payer account.
    pub operator_account_id: Option<AccountId>,
    /// The default target nodes, already chosen among the healthy ones.
    pub default_node_account_ids: Vec<AccountId>,
    /// The default validity window, in seconds.
    pub default_valid_duration: u64,
    /// The default fee ceiling.
    pub default_max_transaction_fee: u64,
    /// The ledger that entity checksums are validated against, if known.
    pub ledger_id: Option<LedgerId>,
    /// The clock reading at freezing time.
    pub now: Timestamp,
}

/// Default validity window of a transaction, in seconds.
pub const DEFAULT_VALID_DURATION: u64 = 120;

/// The body sent to one node.
pub open spec fn wire_body(
    id: TransactionId,
    node: AccountId,
    fee: u64,
    duration: u64,
    data: TransactionBodyData,
) -> WireBody {
    WireBody { transaction_id: id, node_account_id: node, transaction_fee: fee, valid_duration: duration, data }
}

/// The payer of a transaction: that of its id if set, else the default.
pub open spec fn payer_of<D>(b: TransactionBody<D>, ctx: FreezeContext) -> Option<AccountId> {
    match b.transaction_id {
        Some(id) => Some(id.account_id),
        None => ctx.operator_account_id,
    }
}

/// The target nodes: the builder's own list if it names any, else the defaults.
pub open spec fn target_nodes<D>(b: TransactionBody<D>, ctx: FreezeContext) -> Seq<AccountId> {
    match b.node_account_ids {
        Some(v) if v@.len() > 0 => v@,
        _ => ctx.default_node_account_ids@,
    }
}

/// The transaction id of the frozen request, for a given last id start.
pub open spec fn frozen_id<D>(b: TransactionBody<D>, ctx: FreezeContext, last: Timestamp) -> TransactionId {
    match b.transaction_id {
        Some(id) => id,
        None => TransactionId {
            account_id: ctx.operator_account_id->Some_0,
            valid_start: next_valid_start(last, ctx.now),
            nonce: None,
            scheduled: false,
        },
    }
}

/// Whether `f` is the frozen request of body `b` under `ctx`, with id `id`.
pub open spec fn is_frozen_form<D: TransactionData>(
    f: FrozenRequest,
    b: TransactionBody<D>,
    ctx: FreezeContext,
    id: TransactionId,
) -> bool {
    let nodes = target_nodes(b, ctx);
    let fee = match b.max_transaction_fee {
        Some(x) => x,
        None => ctx.default_max_transaction_fee,
    };
    let duration = match b.transaction_valid_duration {
        Some(x) => x,
        None => ctx.default_valid_duration,
    };
    &&& f.transaction_id == id
    &&& f.method == b.data.method()
    &&& f.node_account_ids@ == nodes
    &&& f.bodies@.len() == nodes.len()
    &&& forall|i: int|
        0 <= i < nodes.len() ==> #[trigger] f.bodies@[i] == wire_body(id, nodes[i], fee, duration, b.data.body_data())
    &&& f.signature_sets@.len() == 0
}

/// Whether a frozen request already carries a signature.
pub open spec fn is_signed<D>(t: Transaction<D>) -> bool {
    t.frozen@ matches Some(f) && f.signature_sets@.len() > 0
}

/// The error that freezing `t` under `ctx` gives, where it is one of the
/// assembler's own. A failed entity checksum is checked between the first
/// two and reported with the operation validator's error (`checksum_failure`).
pub open spec fn freeze_error<D: TransactionData>(t: Transaction<D>, ctx: FreezeContext) -> Option<Error> {
    if is_signed(t) {
        Some(Error::AlreadyFrozen)
    } else if ctx.ledger_id matches Some(l) && !t.body.data.checksums_valid(l@) {
        None
    } else if payer_of(t.body, ctx) is None {
        Some(Error::NoPayerAccountOrTransactionId)
    } else if target_nodes(t.body, ctx).len() == 0 {
        Some(Error::NoNodeAccountIds)
    } else {
        None
    }
}

/// Whether freezing `t` under `ctx` passes every check.
pub open spec fn freeze_succeeds<D: TransactionData>(t: Transaction<D>, ctx: FreezeContext) -> bool {
    &&& !is_signed(t)
    &&& (ctx.ledger_id matches Some(l) ==> t.body.data.checksums_valid(l@))
    &&& payer_of(t.body, ctx) is Some
    &&& target_nodes(t.body, ctx).len() > 0
}

/// The relation between a transaction and generator before and after one
/// call of `freeze_with`, and its result.
pub open spec fn freeze_relation<D: TransactionData>(
    t0: Transaction<D>,
    ctx: FreezeContext,
    g0: TransactionIdGenerator,
    r: Result<(), Error>,
    t1: Transaction<D>,
    g1: TransactionIdGenerator,
) -> bool {
    &&& (r is Ok <==> freeze_succeeds(t0, ctx))
    &&& (freeze_error(t0, ctx) matches Some(e) ==> r == Err::<(), Error>(e))
    &&& (ctx.ledger_id matches Some(l) ==> (!is_signed(t0) && !t0.body.data.checksums_valid(l@) ==> (r matches Err(
        e,
    ) && t0.body.data.checksum_failure(l@, e))))
    &&& (r is Ok ==> {
        let id = frozen_id(t0.body, ctx, g0.last_valid_start);
        &&& t1.frozen@ matches Some(f) && is_frozen_form(f, t0.body, ctx, id)
        &&& t1.body.transaction_id == Some(id)
        &&& t1.body.data == t0.body.data
        &&& t1.body.node_account_ids == t0.body.node_account_ids
        &&& t1.body.max_transaction_fee == t0.body.max_transaction_fee
        &&& t1.body.transaction_valid_duration == t0.body.transaction_valid_duration
        &&& (t0.body.transaction_id is None ==> g1.last_valid_start == id.valid_start)
        &&& (t0.body.transaction_id is Some ==> g1 == g0)
    })
    &&& (r is Err ==> t1 == t0 && g1 == g0)
}

/// A copy of a list of account ids.
fn copy_account_ids(v: &Vec<AccountId>) -> (r: Vec<AccountId>)
    ensures
        r@ == v@,
{
    let mut r: Vec<AccountId> = Vec::new();
    let mut i: usize = 0;
    while i < v.len()
        invariant
            i <= v@.len(),
            r@ == v@.take(i as int),
        decreases v.len() - i,
    {
        r.push(v[i]);
        proof {
            assert(v@.take(i + 1) =~= v@.take(i as int).push(v@[i as int]));
        }
        i += 1;
    }
    proof {
        assert(v@.take(v@.len() as int) =~= v@);
    }
    r
}

impl<D: TransactionData> Transaction<D> {
    /// A new, unfrozen transaction around the given operation data.
    pub fn with_data(data: D) -> (r: Self)
        ensures
            r.body.data == data,
            r.body.node_account_ids is None,
            r.body.transaction_id is None,
            r.body.max_transaction_fee is None,
            r.body.transaction_valid_duration is None,
            r.frozen@ is None,
    {
        Transaction {
            body: TransactionBody {
                data,
                node_account_ids: None,
                transaction_id: None,
                max_transaction_fee: None,
                transaction_valid_duration: None,
            },
            frozen: FrozenSlot { request: None },
        }
    }

    /// Sets an explicit list of target nodes.
    pub fn node_account_ids(&mut self, ids: Vec<AccountId>) -> (r: &mut Self)
        ensures
            r.body.node_account_ids == Some(ids),
            r.body.data == old(self).body.data,
            r.body.transaction_id == old(self).body.transaction_id,
            r.body.max_transaction_fee == old(self).body.max_transaction_fee,
            r.body.transaction_valid_duration == old(self).body.transaction_valid_duration,
            r.frozen == old(self).frozen,
            *final(self) == *final(r),
    {
        self.body.node_account_ids = Some(ids);
        self
    }

    /// Sets an explicit transaction id.
    pub fn transaction_id(&mut self, id: TransactionId) -> (r: &mut Self)
        ensures
            r.body.transaction_id == Some(id),
            r.body.data == old(self).body.data,
            r.body.node_account_ids == old(self).body.node_account_ids,
            r.body.max_transaction_fee == old(self).body.max_transaction_fee,
            r.body.transaction_valid_duration == old(self).body.transaction_valid_duration,
            r.frozen == old(self).frozen,
            *final(self) == *final(r),
    {
        self.body.transaction_id = Some(id);
        self
    }

    /// Sets the fee ceiling that every per-node body embeds.
    pub fn max_transaction_fee(&mut self, fee: u64) -> (r: &mut Self)
        ensures
            r.body.max_transaction_fee == Some(fee),
            r.body.data == old(self).body.data,
            r.body.node_account_ids == old(self).body.node_account_ids,
            r.body.transaction_id == old(self).body.transaction_id,
            r.body.transaction_valid_duration == old(self).body.transaction_valid_duration,
            r.frozen == old(self).frozen,
            *final(self) == *final(r),
    {
        self.body.max_transaction_fee = Some(fee);
        self
    }

    /// Freezes the transaction: checks entity checksums when the ledger is
    /// known, fixes the payer, the transaction id and the target nodes, and
    /// builds one body per target node. A signed transaction cannot be
    /// frozen again.
    pub fn freeze_with(&mut self, ctx: &FreezeContext, ids: &mut TransactionIdGenerator) -> (r: Result<(), Error>)
        requires
            old(self).body.transaction_id is None ==> old(ids).last_valid_start < u64::MAX,
        ensures
            freeze_relation(*old(self), *ctx, *old(ids), r, *final(self), *final(ids)),
    {
        if let Some(f) = &self.frozen.request {
            if f.signature_sets.len() > 0 {
                return Err(Error::AlreadyFrozen);
            }
        }
        if let Some(l) = &ctx.ledger_id {
            let checked = self.body.data.validate_checksums_for_ledger_id(l);
            if checked.is_err() {
                return checked;
            }
        }
        let payer = match self.body.transaction_id {
            Some(id) => id.account_id,
            None => match ctx.operator_account_id {
                Some(a) => a,
                None => {
                    return Err(Error::NoPayerAccountOrTransactionId);
                },
            },
        };
        let nodes = match &self.body.node_account_ids {
            Some(v) if v.len() > 0 => copy_account_ids(v),
            _ => copy_account_ids(&ctx.default_node_account_ids),
        };
        if nodes.len() == 0 {
            return Err(Error::NoNodeAccountIds);
        }
        let id = match self.body.transaction_id {
            Some(id) => id,
            None => ids.generate(payer, ctx.now),
        };
        let fee = match self.body.max_transaction_fee {
            Some(x) => x,
            None => ctx.default_max_transaction_fee,
        };
        let duration = match self.body.transaction_valid_duration {
            Some(x) => x,
            None => ctx.default_valid_duration,
        };
        let mut bodies: Vec<WireBody> = Vec::new();
        let mut i: usize = 0;
        while i < nodes.len()
            invariant
                i <= nodes@.len(),
                bodies@.len() == i,
                forall|k: int|
                    0 <= k < i ==> #[trigger] bodies@[k] == wire_body(
                        id,
                        nodes@[k],
                        fee,
                        duration,
                        self.body.data.body_data(),
                    ),
            decreases nodes.len() - i,
        {
            let data = self.body.data.to_transaction_data_protobuf(nodes[i], &id);
            bodies.push(
                WireBody {
                    transaction_id: id,
                    node_account_id: nodes[i],
                    transaction_fee: fee,
                    valid_duration: duration,
                    data,
                },
            );
            i += 1;
        }
        let method = self.body.data.service_method();
        self.body.transaction_id = Some(id);
        self.frozen.request = Some(
            FrozenRequest {
                transaction_id: id,
                method,
                node_account_ids: nodes,
                bodies,
                signature_sets: Vec::new(),
            },
        );
        Ok(())
    }

    /// Appends one signer's signatures, one per per-node body in node order.
    /// The frozen bodies are left as they are.
    pub fn add_signature(&mut self, public_key: Vec<u8>, signatures: Vec<Vec<u8>>) -> (r: Result<(), Error>)
        ensures
            old(self).frozen@ is None ==> r == Err::<(), Error>(Error::NotFrozen),
            old(self).frozen@ matches Some(f) ==> (signatures@.len() != f.bodies@.len() ==> r
                == Err::<(), Error>(
                Error::SignatureCountMismatch { expected: f.bodies@.len() as usize, given: signatures@.len() as usize },
            )),
            r is Err ==> *final(self) == *old(self),
            r is Ok <==> (old(self).frozen@ matches Some(f) && signatures@.len() == f.bodies@.len()),
            r is Ok ==> ({
                let f0 = old(self).frozen@->Some_0;
                let f1 = final(self).frozen@->Some_0;
                &&& final(self).frozen@ is Some
                &&& final(self).body == old(self).body
                &&& f1.transaction_id == f0.transaction_id
                &&& f1.method == f0.method
                &&& f1.node_account_ids == f0.node_account_ids
                &&& f1.bodies == f0.bodies
                &&& f1.signature_sets@ == f0.signature_sets@.push(
                    SignatureSet { public_key, signatures },
                )
            }),
    {
        match &mut self.frozen.request {
            None => Err(Error::NotFrozen),
            Some(f) => {
                if signatures.len() != f.bodies.len() {
                    Err(Error::SignatureCountMismatch { expected: f.bodies.len(), given: signatures.len() })
                } else {
                    f.signature_sets.push(SignatureSet { public_key, signatures });
                    Ok(())
                }
            },
        }
    }
}

/// Freezing a frozen, unsigned transaction again under the same context
/// succeeds and yields the same transaction id.
pub proof fn lemma_refreeze_keeps_transaction_id<D: TransactionData>(
    t0: Transaction<D>,
    ctx: FreezeContext,
    g0: TransactionIdGenerator,
    t1: Transaction<D>,
    g1: TransactionIdGenerator,
    r2: Result<(), Error>,
    t2: Transaction<D>,
    g2: TransactionIdGenerator,
)
    requires
        freeze_relation(t0, ctx, g0, Ok(()), t1, g1),
        freeze_relation(t1, ctx, g1, r2, t2, g2),
    ensures
        r2 is Ok,
        t2.frozen@->Some_0.transaction_id == t1.frozen@->Some_0.transaction_id,
        t2.body.transaction_id == t1.body.transaction_id,
{
    assert(target_nodes(t1.body, ctx) == target_nodes(t0.body, ctx));
    assert(freeze_succeeds(t1, ctx));
}

/// Once a signature has been added to a frozen request, freezing again is
/// refused with `AlreadyFrozen` and leaves the transaction as it was.
pub proof fn lemma_signed_refreeze_rejected<D: TransactionData>(
    t: Transaction<D>,
    ctx: FreezeContext,
    g: TransactionIdGenerator,
    r: Result<(), Error>,
    t1: Transaction<D>,
    g1: TransactionIdGenerator,
)
    requires
        is_signed(t),
        freeze_relation(t, ctx, g, r, t1, g1),
    ensures
        r == Err::<(), Error>(Error::AlreadyFrozen),
        t1 == t,
{
}

} // verus!
