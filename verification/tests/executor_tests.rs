use anvil_executor::executor::{
    AnvilBlockExecutor, AnvilBlockExecutorFactory, AnvilExecutionCtx, AnvilTxResult,
    BlockValidationError, ResultAndState,
};
use anvil_executor::primitives::{EvmState, LogEntry};
use anvil_executor::receipt::{ExecutionResult, FoundryReceiptBuilder, FoundryTxType};

fn ctx(is_prague: bool, is_cancun: bool) -> AnvilExecutionCtx {
    AnvilExecutionCtx { parent_hash: [0xab; 32], is_prague, is_cancun }
}

fn output(gas: u64, blob: Option<u64>, tx_type: FoundryTxType) -> AnvilTxResult {
    AnvilTxResult::from_execution(
        ResultAndState {
            result: ExecutionResult::Success { gas_used: gas, logs: vec![] },
            state: EvmState { accounts: vec![] },
        },
        blob,
        tx_type,
        [5; 20],
    )
}

fn executor(is_prague: bool, is_cancun: bool) -> AnvilBlockExecutor<u32, FoundryReceiptBuilder> {
    AnvilBlockExecutorFactory::create_foundry_executor(17u32, ctx(is_prague, is_cancun))
}

#[test]
fn new_executor_is_empty() {
    let e = AnvilBlockExecutor::new(3u8, ctx(false, false), FoundryReceiptBuilder::default());
    assert_eq!(*e.evm(), 3u8);
    assert!(e.receipts().is_empty());
    let (evm, res) = e.finish().unwrap();
    assert_eq!(evm, 3);
    assert_eq!(res.gas_used, 0);
    assert_eq!(res.blob_gas_used, 0);
    assert!(res.receipts.is_empty());
    assert!(res.requests.is_empty());
}

#[test]
fn factory_uses_given_builder_and_evm() {
    let e = AnvilBlockExecutorFactory::create_executor(9i64, ctx(true, true), FoundryReceiptBuilder::default());
    assert_eq!(*e.evm(), 9);
    assert!(e.receipts().is_empty());
}

#[test]
fn prague_block_opens_with_history_storage_call() {
    let e = executor(true, false);
    let call = e.pre_execution_system_call().expect("a system call under Prague");
    let mut system = [0xffu8; 20];
    system[19] = 0xfe;
    assert_eq!(call.caller, system);
    assert_eq!(call.caller, alloy_eips::eip4788::SYSTEM_ADDRESS.0 .0);
    assert_eq!(call.contract, alloy_eips::eip2935::HISTORY_STORAGE_ADDRESS.0 .0);
    assert_eq!(
        call.contract,
        [
            0x00, 0x00, 0xF9, 0x08, 0x27, 0xF1, 0xC5, 0x3a, 0x10, 0xcb, 0x7A, 0x02, 0x33, 0x5B, 0x17,
            0x53, 0x20, 0x00, 0x29, 0x35
        ]
    );
    assert_eq!(call.data, vec![0xab; 32]);
}

#[test]
fn pre_prague_block_has_no_system_call() {
    assert!(executor(false, true).pre_execution_system_call().is_none());
}

#[test]
fn gas_check_accepts_transaction_that_fits() {
    let e = executor(false, false);
    assert_eq!(e.check_transaction_gas_limit(30_000_000, 21_000), Ok(()));
    assert_eq!(e.check_transaction_gas_limit(30_000_000, 30_000_000), Ok(()));
}

#[test]
fn gas_check_rejects_transaction_over_available_gas() {
    let mut e = executor(false, false);
    e.commit_transaction(output(100_000, None, FoundryTxType::Legacy)).unwrap();
    assert_eq!(e.check_transaction_gas_limit(150_000, 50_000), Ok(()));
    assert_eq!(
        e.check_transaction_gas_limit(150_000, 50_001),
        Err(BlockValidationError::TransactionGasLimitMoreThanAvailableBlockGas {
            transaction_gas_limit: 50_001,
            block_available_gas: 50_000,
        })
    );
}

#[test]
fn commits_accumulate_gas_and_receipts() {
    let mut e = executor(false, false);
    assert_eq!(e.commit_transaction(output(21_000, None, FoundryTxType::Legacy)), Ok(21_000));
    assert_eq!(e.commit_transaction(output(50_000, None, FoundryTxType::Eip1559)), Ok(50_000));
    assert_eq!(e.commit_transaction(output(0, None, FoundryTxType::Eip2930)), Ok(0));
    let cumulative: Vec<u64> = e.receipts().iter().map(|r| r.cumulative_gas_used()).collect();
    assert_eq!(cumulative, vec![21_000, 71_000, 71_000]);
    let (_, res) = e.finish().unwrap();
    assert_eq!(res.gas_used, 71_000);
    assert_eq!(res.receipts.len(), 3);
}

#[test]
fn blob_gas_counts_only_under_cancun() {
    let mut e = executor(false, true);
    e.commit_transaction(output(1, Some(131_072), FoundryTxType::Eip4844)).unwrap();
    e.commit_transaction(output(1, None, FoundryTxType::Eip1559)).unwrap();
    e.commit_transaction(output(1, Some(262_144), FoundryTxType::Eip4844)).unwrap();
    assert_eq!(e.finish().unwrap().1.blob_gas_used, 393_216);

    let mut e = executor(false, false);
    e.commit_transaction(output(1, Some(131_072), FoundryTxType::Eip4844)).unwrap();
    assert_eq!(e.finish().unwrap().1.blob_gas_used, 0);
}

#[test]
fn blob_gas_saturates() {
    let mut e = executor(false, true);
    e.commit_transaction(output(1, Some(u64::MAX - 1), FoundryTxType::Eip4844)).unwrap();
    e.commit_transaction(output(1, Some(5), FoundryTxType::Eip4844)).unwrap();
    assert_eq!(e.finish().unwrap().1.blob_gas_used, u64::MAX);
}

#[test]
fn tx_result_defaults_blob_gas_to_zero() {
    let r = output(7, None, FoundryTxType::Legacy);
    assert_eq!(r.inner.blob_gas_used, 0);
    assert_eq!(r.sender, [5; 20]);
    assert_eq!(r.result().result.gas_used(), 7);
    let r = output(7, Some(9), FoundryTxType::Eip4844);
    assert_eq!(r.inner.blob_gas_used, 9);
}

#[test]
fn committed_receipt_records_logs_and_status() {
    let mut e = executor(false, false);
    let out = AnvilTxResult::from_execution(
        ResultAndState {
            result: ExecutionResult::Revert {
                gas_used: 40,
                logs: vec![LogEntry { address: [3; 20], topics: vec![], data: vec![] }],
            },
            state: EvmState { accounts: vec![] },
        },
        None,
        FoundryTxType::Legacy,
        [1; 20],
    );
    e.commit_transaction(out).unwrap();
    let r = &e.receipts()[0];
    assert!(!r.status());
    assert_eq!(r.cumulative_gas_used(), 40);
}

#[test]
fn evm_mut_gives_access_to_the_evm() {
    let mut e = executor(false, false);
    *e.evm_mut() = 99;
    assert_eq!(*e.evm(), 99);
    assert_eq!(e.finish().unwrap().0, 99);
}

#[test]
fn driven_block_keeps_accounting_while_evm_changes() {
    let mut e = executor(false, true);
    *e.evm_mut() = 1;
    e.commit_transaction(output(21_000, Some(131_072), FoundryTxType::Eip4844)).unwrap();
    *e.evm_mut() += 10;
    assert_eq!(e.gas_used(), 21_000);
    e.commit_transaction(output(30_000, None, FoundryTxType::Eip1559)).unwrap();
    *e.evm_mut() += 100;
    let cumulative: Vec<u64> = e.receipts().iter().map(|r| r.cumulative_gas_used()).collect();
    assert_eq!(cumulative, vec![21_000, 51_000]);
    let (evm, res) = e.finish().unwrap();
    assert_eq!(evm, 111);
    assert_eq!(res.gas_used, 51_000);
    assert_eq!(res.blob_gas_used, 131_072);
    assert_eq!(res.receipts.len(), 2);
}
