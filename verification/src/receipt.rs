//! Receipts: what a committed transaction leaves behind, and how it is built from the
//! execution result.
use vstd::prelude::*;

use crate::primitives::{
    bloom_inputs, logs_bloom, zero_bloom, Address, EvmState, LogEntry,
};

verus! {

/// The transaction types that the executor builds receipts for.
#[derive(Clone, Copy, Debug, PartialEq, Eq, Structural)]
pub enum FoundryTxType {
    Legacy,
    Eip2930,
    Eip1559,
    Eip4844,
    Eip7702,
    Deposit,
    Tempo,
}

/// The outcome of executing one transaction in the EVM.
pub enum ExecutionResult {
    /// Returned successfully.
    Success { gas_used: u64, logs: Vec<LogEntry> },
    /// Reverted by `REVERT`.
    Revert { gas_used: u64, logs: Vec<LogEntry> },
    /// Halted, for any other reason.
    Halt { gas_used: u64, logs: Vec<LogEntry> },
}

impl ExecutionResult {
    pub open spec fn spec_is_success(&self) -> bool {
        self is Success
    }

    pub open spec fn spec_gas_used(&self) -> u64 {
        match self {
            ExecutionResult::Success { gas_used, .. } => *gas_used,
            ExecutionResult::Revert { gas_used, .. } => *gas_used,
            ExecutionResult::Halt { gas_used, .. } => *gas_used,
        }
    }

    pub open spec fn spec_logs(&self) -> Vec<LogEntry> {
        match self {
            ExecutionResult::Success { logs, .. } => *logs,
            ExecutionResult::Revert { logs, .. } => *logs,
            ExecutionResult::Halt { logs, .. } => *logs,
        }
    }

    /// Whether the transaction succeeded (EIP-658 status 1).
    pub fn is_success(&self) -> (r: bool)
        ensures
            r == self.spec_is_success(),
    {
        match self {
            ExecutionResult::Success { .. } => true,
            _ => false,
        }
    }

    /// Gas used by the transaction.
    pub fn gas_used(&self) -> (r: u64)
        ensures
            r == self.spec_gas_used(),
    {
        match self {
            ExecutionResult::Success { gas_used, .. } => *gas_used,
            ExecutionResult::Revert { gas_used, .. } => *gas_used,
            ExecutionResult::Halt { gas_used, .. } => *gas_used,
        }
    }

    /// The logs emitted by the transaction.
    pub fn into_logs(self) -> (r: Vec<LogEntry>)
        ensures
            r == self.spec_logs(),
    {
        match self {
            ExecutionResult::Success { logs, .. } => logs,
            ExecutionResult::Revert { logs, .. } => logs,
            ExecutionResult::Halt { logs, .. } => logs,
        }
    }
}

/// A receipt: EIP-658 status, cumulative gas used in the block, and logs.
pub struct Receipt {
    pub status: bool,
    pub cumulative_gas_used: u64,
    pub logs: Vec<LogEntry>,
}

/// A receipt together with the bloom filter of its logs.
pub struct ReceiptWithBloom {
    pub receipt: Receipt,
    pub logs_bloom: [u8; 256],
}

/// The receipt of an optimism deposit transaction.
pub struct DepositReceipt {
    pub inner: Receipt,
    pub deposit_nonce: Option<u64>,
    pub deposit_receipt_version: Option<u64>,
}

/// A deposit receipt together with the bloom filter of its logs.
pub struct DepositReceiptWithBloom {
    pub receipt: DepositReceipt,
    pub logs_bloom: [u8; 256],
}

/// A receipt of any of the transaction types the executor handles.
pub enum FoundryReceiptEnvelope {
    Legacy(ReceiptWithBloom),
    Eip2930(ReceiptWithBloom),
    Eip1559(ReceiptWithBloom),
    Eip4844(ReceiptWithBloom),
    Eip7702(ReceiptWithBloom),
    Deposit(DepositReceiptWithBloom),
    Tempo(ReceiptWithBloom),
}

impl FoundryReceiptEnvelope {
    /// The transaction type that the receipt's variant belongs to.
    pub open spec fn tx_type(&self) -> FoundryTxType {
        match self {
            FoundryReceiptEnvelope::Legacy(_) => FoundryTxType::Legacy,
            FoundryReceiptEnvelope::Eip2930(_) => FoundryTxType::Eip2930,
            FoundryReceiptEnvelope::Eip1559(_) => FoundryTxType::Eip1559,
            FoundryReceiptEnvelope::Eip4844(_) => FoundryTxType::Eip4844,
            FoundryReceiptEnvelope::Eip7702(_) => FoundryTxType::Eip7702,
            FoundryReceiptEnvelope::Deposit(_) => FoundryTxType::Deposit,
            FoundryReceiptEnvelope::Tempo(_) => FoundryTxType::Tempo,
        }
    }

    /// The plain receipt inside the envelope.
    pub open spec fn inner(&self) -> Receipt {
        match self {
            FoundryReceiptEnvelope::Legacy(r) => r.receipt,
            FoundryReceiptEnvelope::Eip2930(r) => r.receipt,
            FoundryReceiptEnvelope::Eip1559(r) => r.receipt,
            FoundryReceiptEnvelope::Eip4844(r) => r.receipt,
            FoundryReceiptEnvelope::Eip7702(r) => r.receipt,
            FoundryReceiptEnvelope::Deposit(r) => r.receipt.inner,
            FoundryReceiptEnvelope::Tempo(r) => r.receipt,
        }
    }

    /// The bloom filter inside the envelope.
    pub open spec fn bloom(&self) -> Seq<u8> {
        match self {
            FoundryReceiptEnvelope::Legacy(r) => r.logs_bloom@,
            FoundryReceiptEnvelope::Eip2930(r) => r.logs_bloom@,
            FoundryReceiptEnvelope::Eip1559(r) => r.logs_bloom@,
            FoundryReceiptEnvelope::Eip4844(r) => r.logs_bloom@,
            FoundryReceiptEnvelope::Eip7702(r) => r.logs_bloom@,
            FoundryReceiptEnvelope::Deposit(r) => r.logs_bloom@,
            FoundryReceiptEnvelope::Tempo(r) => r.logs_bloom@,
        }
    }

    /// The cumulative gas used recorded in the receipt.
    pub fn cumulative_gas_used(&self) -> (r: u64)
        ensures
            r == self.inner().cumulative_gas_used,
    {
        match self {
            FoundryReceiptEnvelope::Legacy(r) => r.receipt.cumulative_gas_used,
            FoundryReceiptEnvelope::Eip2930(r) => r.receipt.cumulative_gas_used,
            FoundryReceiptEnvelope::Eip1559(r) => r.receipt.cumulative_gas_used,
            FoundryReceiptEnvelope::Eip4844(r) => r.receipt.cumulative_gas_used,
            FoundryReceiptEnvelope::Eip7702(r) => r.receipt.cumulative_gas_used,
            FoundryReceiptEnvelope::Deposit(r) => r.receipt.inner.cumulative_gas_used,
            FoundryReceiptEnvelope::Tempo(r) => r.receipt.cumulative_gas_used,
        }
    }

    /// The EIP-658 status recorded in the receipt.
    pub fn status(&self) -> (r: bool)
        ensures
            r == self.inner().status,
    {
        match self {
            FoundryReceiptEnvelope::Legacy(r) => r.receipt.status,
            FoundryReceiptEnvelope::Eip2930(r) => r.receipt.status,
            FoundryReceiptEnvelope::Eip1559(r) => r.receipt.status,
            FoundryReceiptEnvelope::Eip4844(r) => r.receipt.status,
            FoundryReceiptEnvelope::Eip7702(r) => r.receipt.status,
            FoundryReceiptEnvelope::Deposit(r) => r.receipt.inner.status,
            FoundryReceiptEnvelope::Tempo(r) => r.receipt.status,
        }
    }
}

/// Computes the bloom filter of `receipt`'s logs and pairs the two, as
/// `alloy_consensus::Receipt::with_bloom` does.
///
/// Trusted: the bloom bytes are `alloy_consensus::Receipt::with_bloom`'s `logs_bloom`,
/// which depends only on the logs' addresses and topics (named `logs_bloom`), and is
/// the zero filter when there are no logs. The receipt itself is passed through.
#[verifier::external_body]
pub(crate) fn receipt_with_bloom(receipt: Receipt) -> (r: ReceiptWithBloom)
    ensures
        r.receipt == receipt,
        r.logs_bloom@ == logs_bloom(bloom_inputs(receipt.logs@)),
        receipt.logs@.len() == 0 ==> r.logs_bloom@ == zero_bloom(),
{
    let logs: Vec<alloy_primitives::Log> = receipt.logs.iter().map(|l| alloy_primitives::Log::new_unchecked(
        alloy_primitives::Address::from(l.address),
        l.topics.iter().map(|t| alloy_primitives::B256::from(*t)).collect(),
        alloy_primitives::Bytes::copy_from_slice(&l.data),
    )).collect();
    let alloy_receipt = alloy_consensus::Receipt {
        status: alloy_consensus::Eip658Value::Eip658(receipt.status),
        cumulative_gas_used: receipt.cumulative_gas_used,
        logs,
    };
    let bloom = alloy_receipt.with_bloom().logs_bloom;
    ReceiptWithBloom { receipt, logs_bloom: bloom.0.0 }
}

/// The receipt-building context: what the executor knows about a transaction when it
/// commits it.
pub struct AnvilReceiptBuilderCtx<'a, T, E> {
    pub tx_type: T,
    pub sender: Address,
    pub evm: &'a E,
    pub result: ExecutionResult,
    pub state: &'a EvmState,
    pub cumulative_gas_used: u64,
}

/// Builds receipts for the block executor. Custom networks supply their own.
pub trait AnvilReceiptBuilder {
    type TxType;
    type Receipt;

    /// Whether `receipt` is the receipt this builder produces for a transaction of type
    /// `tx_type` sent by `sender`, with the given execution result, post-transaction
    /// state and cumulative gas.
    spec fn is_receipt_for(
        &self,
        tx_type: Self::TxType,
        sender: Address,
        result: ExecutionResult,
        state: EvmState,
        cumulative_gas_used: u64,
        receipt: Self::Receipt,
    ) -> bool;

    fn build_receipt<E>(&self, ctx: AnvilReceiptBuilderCtx<'_, Self::TxType, E>) -> (r:
        Self::Receipt)
        ensures
            self.is_receipt_for(
                ctx.tx_type,
                ctx.sender,
                ctx.result,
                *ctx.state,
                ctx.cumulative_gas_used,
                r,
            ),
    ;
}

/// Receipt builder for all [`FoundryTxType`] variants.
#[derive(Debug, Default, Clone, Copy)]
#[non_exhaustive]
pub struct FoundryReceiptBuilder;

/// The receipt that [`FoundryReceiptBuilder`] builds: the variant follows the transaction
/// type; status is the execution's success; the logs are the execution's logs; the
/// bloom is theirs; a deposit receipt carries the sender's post-transaction nonce, and
/// receipt version 1 exactly when that nonce is known.
pub open spec fn is_foundry_receipt(
    tx_type: FoundryTxType,
    sender: Address,
    result: ExecutionResult,
    state: EvmState,
    cumulative_gas_used: u64,
    receipt: FoundryReceiptEnvelope,
) -> bool {
    &&& receipt.tx_type() == tx_type
    &&& receipt.inner().status == result.spec_is_success()
    &&& receipt.inner().cumulative_gas_used == cumulative_gas_used
    &&& receipt.inner().logs == result.spec_logs()
    &&& receipt.bloom() == logs_bloom(bloom_inputs(result.spec_logs()@))
    &&& (result.spec_logs()@.len() == 0 ==> receipt.bloom() == zero_bloom())
    &&& (receipt matches FoundryReceiptEnvelope::Deposit(d) ==> {
        let nonce = state.nonce_of(sender@);
        &&& d.receipt.deposit_nonce == nonce
        &&& d.receipt.deposit_receipt_version == (if nonce is Some {
            Some(1u64)
        } else {
            None
        })
    })
}

/// A Foundry receipt records its execution, whatever the transaction type: its status is
/// 1 exactly for a successful execution, its cumulative gas is the one it was built
/// with, its logs are the execution's logs, the same entries in the same order, and its
/// bloom is the bloom of those logs (the zero filter when there are none).
pub proof fn lemma_foundry_receipt_records_execution(
    tx_type: FoundryTxType,
    sender: Address,
    result: ExecutionResult,
    state: EvmState,
    cumulative_gas_used: u64,
    receipt: FoundryReceiptEnvelope,
)
    requires
        is_foundry_receipt(tx_type, sender, result, state, cumulative_gas_used, receipt),
    ensures
        receipt.tx_type() == tx_type,
        receipt.inner().cumulative_gas_used == cumulative_gas_used,
        match result {
            ExecutionResult::Success { logs, .. } => receipt.inner().status
                && receipt.inner().logs@ == logs@,
            ExecutionResult::Revert { logs, .. } => !receipt.inner().status
                && receipt.inner().logs@ == logs@,
            ExecutionResult::Halt { logs, .. } => !receipt.inner().status
                && receipt.inner().logs@ == logs@,
        },
        receipt.bloom() == logs_bloom(bloom_inputs(receipt.inner().logs@)),
        receipt.inner().logs@.len() == 0 ==> receipt.bloom() == zero_bloom(),
{
}

/// The transaction type picks the receipt's variant and nothing else: receipts of one
/// execution built for two transaction types carry the same status, cumulative gas,
/// logs and bloom.
pub proof fn lemma_foundry_receipt_same_for_all_types(
    type_a: FoundryTxType,
    type_b: FoundryTxType,
    sender: Address,
    result: ExecutionResult,
    state: EvmState,
    cumulative_gas_used: u64,
    receipt_a: FoundryReceiptEnvelope,
    receipt_b: FoundryReceiptEnvelope,
)
    requires
        is_foundry_receipt(type_a, sender, result, state, cumulative_gas_used, receipt_a),
        is_foundry_receipt(type_b, sender, result, state, cumulative_gas_used, receipt_b),
    ensures
        receipt_a.inner().status == receipt_b.inner().status,
        receipt_a.inner().cumulative_gas_used == receipt_b.inner().cumulative_gas_used,
        receipt_a.inner().logs@ == receipt_b.inner().logs@,
        receipt_a.bloom() == receipt_b.bloom(),
{
}

/// A deposit receipt carries the sender's nonce in the post-transaction state, whether
/// the execution succeeded, reverted or halted: the nonce of the first entry for the
/// sender, with receipt version 1; when no entry is for the sender, neither.
pub proof fn lemma_deposit_receipt_carries_sender_nonce(
    sender: Address,
    result: ExecutionResult,
    state: EvmState,
    cumulative_gas_used: u64,
    receipt: FoundryReceiptEnvelope,
)
    requires
        is_foundry_receipt(
            FoundryTxType::Deposit,
            sender,
            result,
            state,
            cumulative_gas_used,
            receipt,
        ),
    ensures
        receipt matches FoundryReceiptEnvelope::Deposit(d) && {
            &&& forall|i: int|
                0 <= i < state.accounts@.len() && #[trigger] state.accounts@[i].address@ == sender@
                    && (forall|j: int| 0 <= j < i ==> state.accounts@[j].address@ != sender@)
                    ==> d.receipt.deposit_nonce == Some(state.accounts@[i].nonce)
                    && d.receipt.deposit_receipt_version == Some(1u64)
            &&& (forall|i: int|
                0 <= i < state.accounts@.len() ==> #[trigger] state.accounts@[i].address@
                    != sender@) ==> d.receipt.deposit_nonce is None
                && d.receipt.deposit_receipt_version is None
        },
{
    assert(receipt.tx_type() == FoundryTxType::Deposit);
    assert(receipt is Deposit);
    crate::primitives::lemma_nonce_in_none(state.accounts@, sender@);
    assert forall|i: int|
        0 <= i < state.accounts@.len() && #[trigger] state.accounts@[i].address@ == sender@
            && (forall|j: int| 0 <= j < i ==> state.accounts@[j].address@ != sender@)
            implies state.nonce_of(sender@) == Some(state.accounts@[i].nonce) by {
        crate::primitives::lemma_nonce_in_first(state.accounts@, sender@, i);
    }
}

/// The deposit nonce does not depend on how the execution ended: deposit receipts for
/// two executions by the same sender over the same post-transaction state carry the same
/// nonce and receipt version.
pub proof fn lemma_deposit_nonce_independent_of_result(
    sender: Address,
    result_a: ExecutionResult,
    result_b: ExecutionResult,
    state: EvmState,
    gas_a: u64,
    gas_b: u64,
    receipt_a: FoundryReceiptEnvelope,
    receipt_b: FoundryReceiptEnvelope,
)
    requires
        is_foundry_receipt(FoundryTxType::Deposit, sender, result_a, state, gas_a, receipt_a),
        is_foundry_receipt(FoundryTxType::Deposit, sender, result_b, state, gas_b, receipt_b),
    ensures
        receipt_a matches FoundryReceiptEnvelope::Deposit(a) && receipt_b matches FoundryReceiptEnvelope::Deposit(b)
            && a.receipt.deposit_nonce == b.receipt.deposit_nonce
            && a.receipt.deposit_receipt_version == b.receipt.deposit_receipt_version,
{
    assert(receipt_a is Deposit);
    assert(receipt_b is Deposit);
}

impl AnvilReceiptBuilder for FoundryReceiptBuilder {
    type TxType = FoundryTxType;
    type Receipt = FoundryReceiptEnvelope;

    open spec fn is_receipt_for(
        &self,
        tx_type: FoundryTxType,
        sender: Address,
        result: ExecutionResult,
        state: EvmState,
        cumulative_gas_used: u64,
        receipt: FoundryReceiptEnvelope,
    ) -> bool {
        is_foundry_receipt(tx_type, sender, result, state, cumulative_gas_used, receipt)
    }

    fn build_receipt<E>(&self, ctx: AnvilReceiptBuilderCtx<'_, FoundryTxType, E>) -> (r:
        FoundryReceiptEnvelope) {
        let status = ctx.result.is_success();
        let logs = ctx.result.into_logs();
        let receipt = receipt_with_bloom(
            Receipt { status, cumulative_gas_used: ctx.cumulative_gas_used, logs },
        );
        match ctx.tx_type {
            FoundryTxType::Legacy => FoundryReceiptEnvelope::Legacy(receipt),
            FoundryTxType::Eip2930 => FoundryReceiptEnvelope::Eip2930(receipt),
            FoundryTxType::Eip1559 => FoundryReceiptEnvelope::Eip1559(receipt),
            FoundryTxType::Eip4844 => FoundryReceiptEnvelope::Eip4844(receipt),
            FoundryTxType::Eip7702 => FoundryReceiptEnvelope::Eip7702(receipt),
            FoundryTxType::Tempo => FoundryReceiptEnvelope::Tempo(receipt),
            FoundryTxType::Deposit => {
                let deposit_nonce = ctx.state.get_nonce(&ctx.sender);
                let deposit_receipt_version = match deposit_nonce {
                    Some(_) => Some(1u64),
                    None => None,
                };
                FoundryReceiptEnvelope::Deposit(
                    DepositReceiptWithBloom {
                        receipt: DepositReceipt {
                            inner: receipt.receipt,
                            deposit_nonce,
                            deposit_receipt_version,
                        },
                        logs_bloom: receipt.logs_bloom,
                    },
                )
            },
        }
    }
}

} // verus!
