//! The block executor's bookkeeping: which system call opens the block, which
//! transactions fit in the remaining block gas, and what committing a transaction does
//! to the block's gas counters and receipts.
//!
//! The EVM itself runs outside this module: the executor tells its driver what to run
//! (`pre_execution_system_call`, `check_transaction_gas_limit`) and is told what came
//! back (`commit_transaction`).
use vstd::prelude::*;

use crate::primitives::{Address, EvmState, B256};
use crate::receipt::{
    is_foundry_receipt, AnvilReceiptBuilder, AnvilReceiptBuilderCtx, ExecutionResult, FoundryReceiptBuilder,
    FoundryTxType,
};

verus! {

/// Block-level data needed for the pre- and post-execution system calls.
#[derive(Debug, Clone, Copy)]
pub struct AnvilExecutionCtx {
    /// Parent block hash, stored by the EIP-2935 system call.
    pub parent_hash: B256,
    /// Whether the Prague hardfork is active.
    pub is_prague: bool,
    /// Whether the Cancun hardfork is active.
    pub is_cancun: bool,
}

/// A system call that the driver must run in the EVM and commit.
pub struct SystemCall {
    pub caller: Address,
    pub contract: Address,
    pub data: Vec<u8>,
}

/// The caller of EIP-4788/EIP-2935 system calls: 0xff..fe.
pub open spec fn system_address_bytes() -> Seq<u8> {
    Seq::new(20, |i: int| if i < 19 { 0xffu8 } else { 0xfeu8 })
}

/// The EIP-2935 history storage contract: 0x0000F90827F1C53a10cb7A02335B175320002935.
pub open spec fn history_storage_address_bytes() -> Seq<u8> {
    seq![
        0x00u8, 0x00, 0xF9, 0x08, 0x27, 0xF1, 0xC5, 0x3a, 0x10, 0xcb,
        0x7A, 0x02, 0x33, 0x5B, 0x17, 0x53, 0x20, 0x00, 0x29, 0x35,
    ]
}

/// `alloy_eips::eip4788::SYSTEM_ADDRESS`.
///
/// Trusted: the constant is `address!("fffffffffffffffffffffffffffffffffffffffe")` in
/// the crate's source.
#[verifier::external_body]
fn system_address() -> (r: Address)
    ensures
        r@ == system_address_bytes(),
{
    alloy_eips::eip4788::SYSTEM_ADDRESS.0.0
}

/// `alloy_eips::eip2935::HISTORY_STORAGE_ADDRESS`.
///
/// Trusted: the constant is `address!("0x0000F90827F1C53a10cb7A02335B175320002935")` in
/// the crate's source.
#[verifier::external_body]
fn history_storage_address() -> (r: Address)
    ensures
        r@ == history_storage_address_bytes(),
{
    alloy_eips::eip2935::HISTORY_STORAGE_ADDRESS.0.0
}

/// Copies a 32-byte word into a fresh byte vector.
fn word_to_vec(w: &B256) -> (r: Vec<u8>)
    ensures
        r@ == w@,
{
    let mut v: Vec<u8> = Vec::new();
    let mut i: usize = 0;
    while i < 32
        invariant
            i <= 32,
            w@.len() == 32,
            v@ == w@.take(i as int),
        decreases 32 - i,
    {
        v.push(w[i]);
        i = i + 1;
        assert(v@ =~= w@.take(i as int));
    }
    assert(w@.take(32) =~= w@);
    v
}

/// The EVM's result together with the state changes it made.
pub struct ResultAndState {
    pub result: ExecutionResult,
    pub state: EvmState,
}

/// The result of executing a transaction, before it is committed.
pub struct EthTxResult<T> {
    pub result: ResultAndState,
    pub blob_gas_used: u64,
    pub tx_type: T,
}

/// The result of executing a transaction in [`AnvilBlockExecutor`], with its sender.
pub struct AnvilTxResult<T = FoundryTxType> {
    pub inner: EthTxResult<T>,
    pub sender: Address,
}

impl<T> AnvilTxResult<T> {
    /// Assembles the result of an executed transaction: blob gas the transaction does not
    /// declare counts as zero.
    pub fn from_execution(
        result: ResultAndState,
        blob_gas_used: Option<u64>,
        tx_type: T,
        sender: Address,
    ) -> (r: Self)
        ensures
            r.inner.result == result,
            r.inner.blob_gas_used == (match blob_gas_used {
                Some(g) => g,
                None => 0u64,
            }),
            r.inner.tx_type == tx_type,
            r.sender == sender,
    {
        let blob_gas_used = match blob_gas_used {
            Some(g) => g,
            None => 0u64,
        };
        AnvilTxResult { inner: EthTxResult { result, blob_gas_used, tx_type }, sender }
    }

    /// The execution result and state of the transaction.
    pub fn result(&self) -> (r: &ResultAndState)
        ensures
            *r == self.inner.result,
    {
        &self.inner.result
    }

    pub open spec fn gas(&self) -> u64 {
        self.inner.result.result.spec_gas_used()
    }
}

/// Why a transaction was refused before execution.
#[derive(Debug, Clone, Copy, PartialEq, Eq, Structural)]
pub enum BlockValidationError {
    /// The transaction's gas limit exceeds the gas left in the block.
    TransactionGasLimitMoreThanAvailableBlockGas {
        transaction_gas_limit: u64,
        block_available_gas: u64,
    },
}

/// Errors of block execution that the executor itself reports.
#[derive(Debug, Clone, Copy, PartialEq, Eq, Structural)]
pub enum BlockExecutionError {
    Validation(BlockValidationError),
}

/// What a finished block hands back.
pub struct BlockExecutionResult<R> {
    pub receipts: Vec<R>,
    /// EIP-7685 requests; the executor produces none.
    pub requests: Vec<Vec<u8>>,
    pub gas_used: u64,
    pub blob_gas_used: u64,
}

/// `a + b`, or `u64::MAX` where the sum does not fit.
pub open spec fn saturating_add(a: u64, b: u64) -> u64 {
    if a + b > u64::MAX {
        u64::MAX
    } else {
        (a + b) as u64
    }
}

/// Block executor: it carries the EVM, produces receipts through a pluggable
/// [`AnvilReceiptBuilder`], and counts the gas and blob gas of the block.
pub struct AnvilBlockExecutor<E, RB: AnvilReceiptBuilder = FoundryReceiptBuilder> {
    evm: E,
    ctx: AnvilExecutionCtx,
    receipt_builder: RB,
    receipts: Vec<RB::Receipt>,
    gas_used: u64,
    blob_gas_used: u64,
}

impl<E, RB: AnvilReceiptBuilder> AnvilBlockExecutor<E, RB> {
    pub closed spec fn spec_evm(&self) -> E {
        self.evm
    }

    pub closed spec fn spec_ctx(&self) -> AnvilExecutionCtx {
        self.ctx
    }

    pub closed spec fn spec_receipt_builder(&self) -> RB {
        self.receipt_builder
    }

    pub closed spec fn spec_receipts(&self) -> Seq<RB::Receipt> {
        self.receipts@
    }

    pub closed spec fn spec_gas_used(&self) -> u64 {
        self.gas_used
    }

    pub closed spec fn spec_blob_gas_used(&self) -> u64 {
        self.blob_gas_used
    }

    /// `next` is what committing `output` makes of `self`, whatever became of the EVM:
    /// the gas of the transaction is added to the block's gas; under Cancun its blob gas
    /// is added (saturating) to the block's blob gas; one receipt, built with the new
    /// cumulative gas, is appended; context and receipt builder stay.
    pub open spec fn steps_to(self, output: AnvilTxResult<RB::TxType>, next: Self) -> bool {
        &&& next.spec_ctx() == self.spec_ctx()
        &&& next.spec_receipt_builder() == self.spec_receipt_builder()
        &&& next.spec_gas_used() == self.spec_gas_used() + output.gas()
        &&& next.spec_blob_gas_used() == (if self.spec_ctx().is_cancun {
            saturating_add(self.spec_blob_gas_used(), output.inner.blob_gas_used)
        } else {
            self.spec_blob_gas_used()
        })
        &&& next.spec_receipts().len() == self.spec_receipts().len() + 1
        &&& next.spec_receipts().drop_last() == self.spec_receipts()
        &&& self.spec_receipt_builder().is_receipt_for(
            output.inner.tx_type,
            output.sender,
            output.inner.result.result,
            output.inner.result.state,
            next.spec_gas_used(),
            next.spec_receipts().last(),
        )
    }

    /// `next` is what committing `output` makes of `self`: [`Self::steps_to`], with the
    /// EVM left as it was.
    pub open spec fn commit_step(self, output: AnvilTxResult<RB::TxType>, next: Self) -> bool {
        &&& next.spec_evm() == self.spec_evm()
        &&& self.steps_to(output, next)
    }

    /// `next` differs from `self` at most in its EVM: what a driver's work through
    /// [`Self::evm_mut`] (running a transaction, committing state) makes of the executor.
    pub open spec fn evm_access_step(self, next: Self) -> bool {
        &&& next.spec_ctx() == self.spec_ctx()
        &&& next.spec_receipt_builder() == self.spec_receipt_builder()
        &&& next.spec_receipts() == self.spec_receipts()
        &&& next.spec_gas_used() == self.spec_gas_used()
        &&& next.spec_blob_gas_used() == self.spec_blob_gas_used()
    }

    /// An executor that has not executed anything yet.
    pub open spec fn is_fresh(&self) -> bool {
        &&& self.spec_receipts().len() == 0
        &&& self.spec_gas_used() == 0
        &&& self.spec_blob_gas_used() == 0
    }

    /// Creates an executor for a block with the given context.
    pub fn new(evm: E, ctx: AnvilExecutionCtx, receipt_builder: RB) -> (r: Self)
        ensures
            r.spec_evm() == evm,
            r.spec_ctx() == ctx,
            r.spec_receipt_builder() == receipt_builder,
            r.is_fresh(),
    {
        AnvilBlockExecutor {
            evm,
            ctx,
            receipt_builder,
            receipts: Vec::new(),
            gas_used: 0,
            blob_gas_used: 0,
        }
    }

    /// The system call that opens the block: under Prague, the parent block hash is
    /// stored in the EIP-2935 history contract by the system address; otherwise none.
    pub fn pre_execution_system_call(&self) -> (r: Option<SystemCall>)
        ensures
            r is Some <==> self.spec_ctx().is_prague,
            r matches Some(c) ==> {
                &&& c.caller@ == system_address_bytes()
                &&& c.contract@ == history_storage_address_bytes()
                &&& c.data@ == self.spec_ctx().parent_hash@
            },
    {
        if self.ctx.is_prague {
            Some(
                SystemCall {
                    caller: system_address(),
                    contract: history_storage_address(),
                    data: word_to_vec(&self.ctx.parent_hash),
                },
            )
        } else {
            None
        }
    }

    /// Checks that a transaction with gas limit `tx_gas_limit` fits in what is left of
    /// a block whose gas limit is `block_gas_limit`.
    pub fn check_transaction_gas_limit(&self, block_gas_limit: u64, tx_gas_limit: u64) -> (r:
        Result<(), BlockValidationError>)
        requires
            self.spec_gas_used() <= block_gas_limit,
        ensures
            r is Ok <==> tx_gas_limit <= block_gas_limit - self.spec_gas_used(),
            r is Err ==> r == Err::<(), BlockValidationError>(
                BlockValidationError::TransactionGasLimitMoreThanAvailableBlockGas {
                    transaction_gas_limit: tx_gas_limit,
                    block_available_gas: (block_gas_limit - self.spec_gas_used()) as u64,
                },
            ),
    {
        let block_available_gas = block_gas_limit - self.gas_used;
        if tx_gas_limit > block_available_gas {
            Err(
                BlockValidationError::TransactionGasLimitMoreThanAvailableBlockGas {
                    transaction_gas_limit: tx_gas_limit,
                    block_available_gas,
                },
            )
        } else {
            Ok(())
        }
    }

    /// Commits an executed transaction: counts its gas and blob gas and records its
    /// receipt. Returns the gas the transaction used.
    pub fn commit_transaction(&mut self, output: AnvilTxResult<RB::TxType>) -> (r: Result<
        u64,
        BlockExecutionError,
    >)
        requires
            old(self).spec_gas_used() + output.gas() <= u64::MAX,
        ensures
            r == Ok::<u64, BlockExecutionError>(output.gas()),
            old(self).commit_step(output, *final(self)),
    {
        let AnvilTxResult { inner: EthTxResult { result, blob_gas_used, tx_type }, sender } =
            output;
        let ResultAndState { result, state } = result;
        let gas_used = result.gas_used();
        self.gas_used = self.gas_used + gas_used;
        if self.ctx.is_cancun {
            self.blob_gas_used = self.blob_gas_used.saturating_add(blob_gas_used);
        }
        let receipt = self.receipt_builder.build_receipt(
            AnvilReceiptBuilderCtx {
                tx_type,
                sender,
                evm: &self.evm,
                result,
                state: &state,
                cumulative_gas_used: self.gas_used,
            },
        );
        let ghost before = self.receipts@;
        self.receipts.push(receipt);
        assert(self.receipts@.drop_last() =~= before);
        Ok(gas_used)
    }

    /// Finishes the block: hands back the EVM and the block's receipts and gas counters.
    pub fn finish(self) -> (r: Result<(E, BlockExecutionResult<RB::Receipt>), BlockExecutionError>)
        ensures
            r matches Ok((evm, res)) && {
                &&& evm == self.spec_evm()
                &&& res.receipts@ == self.spec_receipts()
                &&& res.requests@.len() == 0
                &&& res.gas_used == self.spec_gas_used()
                &&& res.blob_gas_used == self.spec_blob_gas_used()
            },
    {
        Ok(
            (
                self.evm,
                BlockExecutionResult {
                    receipts: self.receipts,
                    requests: Vec::new(),
                    gas_used: self.gas_used,
                    blob_gas_used: self.blob_gas_used,
                },
            ),
        )
    }

    /// The EVM the executor runs on.
    pub fn evm(&self) -> (r: &E)
        ensures
            *r == self.spec_evm(),
    {
        &self.evm
    }

    /// The EVM the executor runs on, for the driver to run transactions and commit state.
    pub fn evm_mut(&mut self) -> (r: &mut E)
        ensures
            *r == old(self).spec_evm(),
            final(self).spec_evm() == *final(r),
            final(self).spec_ctx() == old(self).spec_ctx(),
            final(self).spec_receipt_builder() == old(self).spec_receipt_builder(),
            final(self).spec_receipts() == old(self).spec_receipts(),
            final(self).spec_gas_used() == old(self).spec_gas_used(),
            final(self).spec_blob_gas_used() == old(self).spec_blob_gas_used(),
            old(self).evm_access_step(*final(self)),
    {
        &mut self.evm
    }

    /// The gas used by the transactions committed so far.
    pub fn gas_used(&self) -> (r: u64)
        ensures
            r == self.spec_gas_used(),
    {
        self.gas_used
    }

    /// The receipts of the transactions committed so far.
    pub fn receipts(&self) -> (r: &[RB::Receipt])
        ensures
            r@ == self.spec_receipts(),
    {
        self.receipts.as_slice()
    }
}

/// The gas used by a list of executed transactions, in total.
pub open spec fn total_gas<T>(outputs: Seq<AnvilTxResult<T>>) -> int
    decreases outputs.len(),
{
    if outputs.len() == 0 {
        0
    } else {
        total_gas(outputs.drop_last()) + outputs.last().gas()
    }
}

/// The blob gas a block records for a list of executed transactions: nothing before
/// Cancun, the saturating sum of their blob gas from Cancun on.
pub open spec fn total_blob_gas<T>(outputs: Seq<AnvilTxResult<T>>, is_cancun: bool) -> u64
    decreases outputs.len(),
{
    if outputs.len() == 0 || !is_cancun {
        0
    } else {
        saturating_add(total_blob_gas(outputs.drop_last(), is_cancun), outputs.last().inner.blob_gas_used)
    }
}

/// `states` is a run of the executor: it starts fresh, and each state is the previous one
/// with `outputs[i]` committed.
pub open spec fn is_run<E, RB: AnvilReceiptBuilder>(
    states: Seq<AnvilBlockExecutor<E, RB>>,
    outputs: Seq<AnvilTxResult<RB::TxType>>,
) -> bool {
    &&& states.len() == outputs.len() + 1
    &&& states[0].is_fresh()
    &&& forall|i: int| 0 < i <= outputs.len() ==> #[trigger] commits_into(states, outputs, i)
}

/// State `i` of `states` is state `i - 1` with `outputs[i - 1]` committed.
pub open spec fn commits_into<E, RB: AnvilReceiptBuilder>(
    states: Seq<AnvilBlockExecutor<E, RB>>,
    outputs: Seq<AnvilTxResult<RB::TxType>>,
    i: int,
) -> bool {
    states[i - 1].commit_step(outputs[i - 1], states[i])
}

/// `states` is a run of the executor as a driver makes it: it starts fresh, and each
/// state is the previous one with `outputs[i]` committed, the EVM being free to change
/// in between (transactions run and state committed through [`AnvilBlockExecutor::evm_mut`]).
pub open spec fn is_driven_run<E, RB: AnvilReceiptBuilder>(
    states: Seq<AnvilBlockExecutor<E, RB>>,
    outputs: Seq<AnvilTxResult<RB::TxType>>,
) -> bool {
    &&& states.len() == outputs.len() + 1
    &&& states[0].is_fresh()
    &&& forall|i: int| 0 < i <= outputs.len() ==> #[trigger] drives_into(states, outputs, i)
}

/// State `i` of `states` is state `i - 1` with `outputs[i - 1]` committed, whatever became
/// of the EVM.
pub open spec fn drives_into<E, RB: AnvilReceiptBuilder>(
    states: Seq<AnvilBlockExecutor<E, RB>>,
    outputs: Seq<AnvilTxResult<RB::TxType>>,
    i: int,
) -> bool {
    states[i - 1].steps_to(outputs[i - 1], states[i])
}

/// Work on the EVM before a commit does not change what the commit does to the block.
pub proof fn lemma_evm_access_then_step<E, RB: AnvilReceiptBuilder>(
    a: AnvilBlockExecutor<E, RB>,
    b: AnvilBlockExecutor<E, RB>,
    output: AnvilTxResult<RB::TxType>,
    c: AnvilBlockExecutor<E, RB>,
)
    requires
        a.evm_access_step(b),
        b.steps_to(output, c),
    ensures
        a.steps_to(output, c),
{
}

/// Work on the EVM after a commit does not undo what the commit did to the block.
pub proof fn lemma_step_then_evm_access<E, RB: AnvilReceiptBuilder>(
    a: AnvilBlockExecutor<E, RB>,
    output: AnvilTxResult<RB::TxType>,
    b: AnvilBlockExecutor<E, RB>,
    c: AnvilBlockExecutor<E, RB>,
)
    requires
        a.steps_to(output, b),
        b.evm_access_step(c),
    ensures
        a.steps_to(output, c),
{
}

/// Two rounds of work on the EVM are one: the block's accounting stays as it was.
pub proof fn lemma_evm_access_trans<E, RB: AnvilReceiptBuilder>(
    a: AnvilBlockExecutor<E, RB>,
    b: AnvilBlockExecutor<E, RB>,
    c: AnvilBlockExecutor<E, RB>,
)
    requires
        a.evm_access_step(b),
        b.evm_access_step(c),
    ensures
        a.evm_access_step(c),
{
}

/// Work on the EVM of a fresh executor leaves it fresh.
pub proof fn lemma_evm_access_keeps_fresh<E, RB: AnvilReceiptBuilder>(
    a: AnvilBlockExecutor<E, RB>,
    b: AnvilBlockExecutor<E, RB>,
)
    requires
        a.is_fresh(),
        a.evm_access_step(b),
    ensures
        b.is_fresh(),
{
}

/// A run with nothing done to the EVM between commits is a driven run.
pub proof fn lemma_run_is_driven<E, RB: AnvilReceiptBuilder>(
    states: Seq<AnvilBlockExecutor<E, RB>>,
    outputs: Seq<AnvilTxResult<RB::TxType>>,
)
    requires
        is_run(states, outputs),
    ensures
        is_driven_run(states, outputs),
{
    assert forall|i: int| 0 < i <= outputs.len() implies #[trigger] drives_into(states, outputs, i) by {
        assert(commits_into(states, outputs, i));
    }
}

/// Block accounting: after committing a list of transactions to a fresh executor, the
/// block's gas is the total gas of the transactions, its blob gas is their blob gas
/// (none before Cancun), there is one receipt per transaction, in order, and the receipt
/// of the i-th transaction is built with the gas of the first i + 1 transactions as its
/// cumulative gas. This holds of every driven run, whatever the driver does to the EVM
/// between commits.
pub proof fn lemma_driven_block_accounting<E, RB: AnvilReceiptBuilder>(
    states: Seq<AnvilBlockExecutor<E, RB>>,
    outputs: Seq<AnvilTxResult<RB::TxType>>,
)
    requires
        is_driven_run(states, outputs),
    ensures
        states.last().spec_gas_used() == total_gas(outputs),
        states.last().spec_blob_gas_used() == total_blob_gas(outputs, states[0].spec_ctx().is_cancun),
        states.last().spec_receipts().len() == outputs.len(),
        forall|i: int|
            0 <= i < outputs.len() ==> states[0].spec_receipt_builder().is_receipt_for(
                outputs[i].inner.tx_type,
                outputs[i].sender,
                outputs[i].inner.result.result,
                outputs[i].inner.result.state,
                total_gas(outputs.take(i + 1)) as u64,
                #[trigger] states.last().spec_receipts()[i],
            ),
    decreases outputs.len(),
{
    let n = outputs.len();
    if n == 0 {
    } else {
        let prev_states = states.drop_last();
        let prev_outputs = outputs.drop_last();
        assert forall|i: int| 0 < i <= prev_outputs.len() implies #[trigger] drives_into(prev_states, prev_outputs, i) by {
            assert(drives_into(states, outputs, i));
        }
        lemma_driven_block_accounting(prev_states, prev_outputs);
        let last = states.last();
        let before = prev_states.last();
        assert(before == states[n - 1]);
        assert(drives_into(states, outputs, n as int));
        lemma_driven_run_keeps_ctx(states, outputs, n - 1);
        assert(outputs.take(n as int) =~= outputs);
        assert(outputs.drop_last() == prev_outputs);
        assert(last.spec_gas_used() == total_gas(outputs));
        assert forall|i: int| 0 <= i < outputs.len() implies states[0].spec_receipt_builder().is_receipt_for(
                outputs[i].inner.tx_type,
                outputs[i].sender,
                outputs[i].inner.result.result,
                outputs[i].inner.result.state,
                total_gas(outputs.take(i + 1)) as u64,
                #[trigger] states.last().spec_receipts()[i],
            ) by {
            if i < n - 1 {
                assert(outputs.take(i + 1) =~= prev_outputs.take(i + 1));
                assert(prev_outputs[i] == outputs[i]);
                assert(last.spec_receipts()[i] == last.spec_receipts().drop_last()[i]);
                assert(prev_states.last().spec_receipts()[i] == before.spec_receipts()[i]);
                assert(states[0].spec_receipt_builder().is_receipt_for(
                    prev_outputs[i].inner.tx_type,
                    prev_outputs[i].sender,
                    prev_outputs[i].inner.result.result,
                    prev_outputs[i].inner.result.state,
                    total_gas(prev_outputs.take(i + 1)) as u64,
                    prev_states.last().spec_receipts()[i],
                ));
            } else {
                assert(last.spec_receipts().last() == last.spec_receipts()[i]);
            }
        }
    }
}

/// Block accounting for a run with nothing done to the EVM between commits: the same
/// totals and receipts as [`lemma_driven_block_accounting`] states.
pub proof fn lemma_block_accounting<E, RB: AnvilReceiptBuilder>(
    states: Seq<AnvilBlockExecutor<E, RB>>,
    outputs: Seq<AnvilTxResult<RB::TxType>>,
)
    requires
        is_run(states, outputs),
    ensures
        states.last().spec_gas_used() == total_gas(outputs),
        states.last().spec_blob_gas_used() == total_blob_gas(outputs, states[0].spec_ctx().is_cancun),
        states.last().spec_receipts().len() == outputs.len(),
        forall|i: int|
            0 <= i < outputs.len() ==> states[0].spec_receipt_builder().is_receipt_for(
                outputs[i].inner.tx_type,
                outputs[i].sender,
                outputs[i].inner.result.result,
                outputs[i].inner.result.state,
                total_gas(outputs.take(i + 1)) as u64,
                #[trigger] states.last().spec_receipts()[i],
            ),
{
    lemma_run_is_driven(states, outputs);
    lemma_driven_block_accounting(states, outputs);
}

/// Gas totals grow with the prefix: the first `i` transactions use no more gas than the
/// first `j`, for `i <= j`.
pub proof fn lemma_total_gas_prefix_monotone<T>(outputs: Seq<AnvilTxResult<T>>, i: int, j: int)
    requires
        0 <= i <= j <= outputs.len(),
    ensures
        0 <= total_gas(outputs.take(i)) <= total_gas(outputs.take(j)),
    decreases j,
{
    if j == 0 {
        assert(outputs.take(0).len() == 0);
    } else if i == j {
        lemma_total_gas_nonneg(outputs.take(j));
    } else {
        lemma_total_gas_prefix_monotone(outputs, i, j - 1);
        assert(outputs.take(j).drop_last() =~= outputs.take(j - 1));
    }
}

/// The total gas of a list of transactions is never negative.
pub proof fn lemma_total_gas_nonneg<T>(outputs: Seq<AnvilTxResult<T>>)
    ensures
        total_gas(outputs) >= 0,
    decreases outputs.len(),
{
    if outputs.len() > 0 {
        lemma_total_gas_nonneg(outputs.drop_last());
    }
}

/// Receipts of a block built with [`FoundryReceiptBuilder`]: the receipt of the i-th
/// transaction has that transaction's type and status; the receipts' cumulative gas never
/// decreases along the block; and the last receipt's cumulative gas is the block's gas.
/// This holds of every driven run, whatever the driver does to the EVM between commits.
pub proof fn lemma_driven_foundry_receipts_consistent<E>(
    states: Seq<AnvilBlockExecutor<E, FoundryReceiptBuilder>>,
    outputs: Seq<AnvilTxResult<FoundryTxType>>,
)
    requires
        is_driven_run(states, outputs),
    ensures
        forall|i: int|
            0 <= i < outputs.len() ==> {
                &&& (#[trigger] states.last().spec_receipts()[i]).tx_type() == outputs[i].inner.tx_type
                &&& states.last().spec_receipts()[i].inner().status
                    == outputs[i].inner.result.result.spec_is_success()
            },
        forall|i: int, j: int|
            0 <= i <= j < outputs.len() ==> (#[trigger] states.last().spec_receipts()[i]).inner().cumulative_gas_used
                <= (#[trigger] states.last().spec_receipts()[j]).inner().cumulative_gas_used,
        outputs.len() > 0 ==> states.last().spec_receipts().last().inner().cumulative_gas_used
            == states.last().spec_gas_used(),
{
    lemma_driven_block_accounting(states, outputs);
    let n = outputs.len();
    let receipts = states.last().spec_receipts();
    assert forall|i: int, j: int|
        0 <= i <= j < outputs.len() implies (#[trigger] receipts[i]).inner().cumulative_gas_used
            <= (#[trigger] receipts[j]).inner().cumulative_gas_used by {
        lemma_total_gas_prefix_monotone(outputs, i + 1, j + 1);
        lemma_total_gas_prefix_monotone(outputs, j + 1, n as int);
        assert(outputs.take(n as int) =~= outputs);
        assert(is_foundry_receipt(
            outputs[i].inner.tx_type,
            outputs[i].sender,
            outputs[i].inner.result.result,
            outputs[i].inner.result.state,
            total_gas(outputs.take(i + 1)) as u64,
            receipts[i],
        ));
        assert(is_foundry_receipt(
            outputs[j].inner.tx_type,
            outputs[j].sender,
            outputs[j].inner.result.result,
            outputs[j].inner.result.state,
            total_gas(outputs.take(j + 1)) as u64,
            receipts[j],
        ));
    }
    if n > 0 {
        assert(outputs.take(n as int) =~= outputs);
        assert(receipts.last() == receipts[n - 1]);
        assert(is_foundry_receipt(
            outputs[n - 1].inner.tx_type,
            outputs[n - 1].sender,
            outputs[n - 1].inner.result.result,
            outputs[n - 1].inner.result.state,
            total_gas(outputs.take(n as int)) as u64,
            receipts[n - 1],
        ));
    }
}

/// Receipts of a [`FoundryReceiptBuilder`] block for a run with nothing done to the EVM
/// between commits: as [`lemma_driven_foundry_receipts_consistent`] states.
pub proof fn lemma_foundry_receipts_consistent<E>(
    states: Seq<AnvilBlockExecutor<E, FoundryReceiptBuilder>>,
    outputs: Seq<AnvilTxResult<FoundryTxType>>,
)
    requires
        is_run(states, outputs),
    ensures
        forall|i: int|
            0 <= i < outputs.len() ==> {
                &&& (#[trigger] states.last().spec_receipts()[i]).tx_type() == outputs[i].inner.tx_type
                &&& states.last().spec_receipts()[i].inner().status
                    == outputs[i].inner.result.result.spec_is_success()
            },
        forall|i: int, j: int|
            0 <= i <= j < outputs.len() ==> (#[trigger] states.last().spec_receipts()[i]).inner().cumulative_gas_used
                <= (#[trigger] states.last().spec_receipts()[j]).inner().cumulative_gas_used,
        outputs.len() > 0 ==> states.last().spec_receipts().last().inner().cumulative_gas_used
            == states.last().spec_gas_used(),
{
    lemma_run_is_driven(states, outputs);
    lemma_driven_foundry_receipts_consistent(states, outputs);
}

/// A transaction admitted by `check_transaction_gas_limit` that used no more gas than its
/// limit leaves the block's gas within the block's gas limit, so the next transaction can
/// be admitted in turn.
pub proof fn lemma_admitted_transaction_fits_block<E, RB: AnvilReceiptBuilder>(
    before: AnvilBlockExecutor<E, RB>,
    output: AnvilTxResult<RB::TxType>,
    after: AnvilBlockExecutor<E, RB>,
    block_gas_limit: u64,
    tx_gas_limit: u64,
)
    requires
        before.spec_gas_used() <= block_gas_limit,
        tx_gas_limit <= block_gas_limit - before.spec_gas_used(),
        output.gas() <= tx_gas_limit,
        before.steps_to(output, after),
    ensures
        after.spec_gas_used() <= block_gas_limit,
{
}

/// Committing transactions changes neither the EVM's identity, the block context nor
/// the receipt builder.
pub proof fn lemma_run_keeps_ctx<E, RB: AnvilReceiptBuilder>(
    states: Seq<AnvilBlockExecutor<E, RB>>,
    outputs: Seq<AnvilTxResult<RB::TxType>>,
    k: int,
)
    requires
        is_run(states, outputs),
        0 <= k < states.len(),
    ensures
        states[k].spec_ctx() == states[0].spec_ctx(),
        states[k].spec_receipt_builder() == states[0].spec_receipt_builder(),
        states[k].spec_evm() == states[0].spec_evm(),
    decreases k,
{
    if k > 0 {
        lemma_run_keeps_ctx(states, outputs, k - 1);
        assert(commits_into(states, outputs, k));
    }
}

/// A driven run changes neither the block context nor the receipt builder.
pub proof fn lemma_driven_run_keeps_ctx<E, RB: AnvilReceiptBuilder>(
    states: Seq<AnvilBlockExecutor<E, RB>>,
    outputs: Seq<AnvilTxResult<RB::TxType>>,
    k: int,
)
    requires
        is_driven_run(states, outputs),
        0 <= k < states.len(),
    ensures
        states[k].spec_ctx() == states[0].spec_ctx(),
        states[k].spec_receipt_builder() == states[0].spec_receipt_builder(),
    decreases k,
{
    if k > 0 {
        lemma_driven_run_keeps_ctx(states, outputs, k - 1);
        assert(drives_into(states, outputs, k));
    }
}

/// Creates block executors over the EVM the node runs.
pub struct AnvilBlockExecutorFactory;

impl AnvilBlockExecutorFactory {
    /// Creates an executor with the given receipt builder.
    pub fn create_executor<E, RB: AnvilReceiptBuilder>(
        evm: E,
        ctx: AnvilExecutionCtx,
        receipt_builder: RB,
    ) -> (r: AnvilBlockExecutor<E, RB>)
        ensures
            r.spec_evm() == evm,
            r.spec_ctx() == ctx,
            r.spec_receipt_builder() == receipt_builder,
            r.is_fresh(),
    {
        AnvilBlockExecutor::new(evm, ctx, receipt_builder)
    }

    /// Creates an executor that builds receipts with [`FoundryReceiptBuilder`].
    pub fn create_foundry_executor<E>(evm: E, ctx: AnvilExecutionCtx) -> (r: AnvilBlockExecutor<
        E,
        FoundryReceiptBuilder,
    >)
        ensures
            r.spec_evm() == evm,
            r.spec_ctx() == ctx,
            r.is_fresh(),
    {
        Self::create_executor(evm, ctx, FoundryReceiptBuilder)
    }
}

} // verus!
