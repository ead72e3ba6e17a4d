use anvil_executor::primitives::{AccountState, EvmState, LogEntry};
use anvil_executor::receipt::{
    AnvilReceiptBuilder, AnvilReceiptBuilderCtx, ExecutionResult, FoundryReceiptBuilder,
    FoundryReceiptEnvelope, FoundryTxType,
};

fn log(addr_byte: u8, topic_byte: u8) -> LogEntry {
    LogEntry { address: [addr_byte; 20], topics: vec![[topic_byte; 32]], data: vec![1, 2, 3] }
}

fn build(
    tx_type: FoundryTxType,
    sender: [u8; 20],
    result: ExecutionResult,
    state: &EvmState,
    cumulative: u64,
) -> FoundryReceiptEnvelope {
    let evm = ();
    FoundryReceiptBuilder::default().build_receipt(AnvilReceiptBuilderCtx {
        tx_type,
        sender,
        evm: &evm,
        result,
        state,
        cumulative_gas_used: cumulative,
    })
}

fn empty_state() -> EvmState {
    EvmState { accounts: vec![] }
}

fn alloy_bloom(logs: &[LogEntry]) -> [u8; 256] {
    let alloy_logs: Vec<alloy_primitives::Log> = logs
        .iter()
        .map(|l| {
            alloy_primitives::Log::new_unchecked(
                alloy_primitives::Address::from(l.address),
                l.topics.iter().map(|t| alloy_primitives::B256::from(*t)).collect(),
                alloy_primitives::Bytes::copy_from_slice(&l.data),
            )
        })
        .collect();
    alloy_primitives::logs_bloom(alloy_logs.iter()).0 .0
}

#[test]
fn receipt_variant_follows_tx_type() {
    let cases = [
        FoundryTxType::Legacy,
        FoundryTxType::Eip2930,
        FoundryTxType::Eip1559,
        FoundryTxType::Eip4844,
        FoundryTxType::Eip7702,
        FoundryTxType::Tempo,
        FoundryTxType::Deposit,
    ];
    for t in cases {
        let r = build(
            t,
            [1; 20],
            ExecutionResult::Success { gas_used: 21000, logs: vec![] },
            &empty_state(),
            21000,
        );
        let matches = match (&r, t) {
            (FoundryReceiptEnvelope::Legacy(_), FoundryTxType::Legacy) => true,
            (FoundryReceiptEnvelope::Eip2930(_), FoundryTxType::Eip2930) => true,
            (FoundryReceiptEnvelope::Eip1559(_), FoundryTxType::Eip1559) => true,
            (FoundryReceiptEnvelope::Eip4844(_), FoundryTxType::Eip4844) => true,
            (FoundryReceiptEnvelope::Eip7702(_), FoundryTxType::Eip7702) => true,
            (FoundryReceiptEnvelope::Tempo(_), FoundryTxType::Tempo) => true,
            (FoundryReceiptEnvelope::Deposit(_), FoundryTxType::Deposit) => true,
            _ => false,
        };
        assert!(matches);
        assert!(r.status());
        assert_eq!(r.cumulative_gas_used(), 21000);
    }
}

#[test]
fn reverted_and_halted_transactions_have_failed_status() {
    let r = build(
        FoundryTxType::Eip1559,
        [1; 20],
        ExecutionResult::Revert { gas_used: 30000, logs: vec![] },
        &empty_state(),
        50000,
    );
    assert!(!r.status());
    assert_eq!(r.cumulative_gas_used(), 50000);
    let r = build(
        FoundryTxType::Legacy,
        [1; 20],
        ExecutionResult::Halt { gas_used: 30000, logs: vec![] },
        &empty_state(),
        7,
    );
    assert!(!r.status());
    assert_eq!(r.cumulative_gas_used(), 7);
}

#[test]
fn receipt_without_logs_has_zero_bloom() {
    let r = build(
        FoundryTxType::Legacy,
        [1; 20],
        ExecutionResult::Success { gas_used: 1, logs: vec![] },
        &empty_state(),
        1,
    );
    match r {
        FoundryReceiptEnvelope::Legacy(rb) => {
            assert_eq!(rb.logs_bloom, [0u8; 256]);
            assert!(rb.receipt.logs.is_empty());
        }
        _ => panic!("expected a legacy receipt"),
    }
}

#[test]
fn receipt_bloom_is_the_bloom_of_its_logs() {
    let logs = vec![log(0xaa, 0x11), log(0xbb, 0x22)];
    let expected = alloy_bloom(&logs);
    assert_ne!(expected, [0u8; 256]);
    let r = build(
        FoundryTxType::Eip1559,
        [1; 20],
        ExecutionResult::Success { gas_used: 1, logs },
        &empty_state(),
        1,
    );
    match r {
        FoundryReceiptEnvelope::Eip1559(rb) => {
            assert_eq!(rb.logs_bloom, expected);
            assert_eq!(rb.receipt.logs.len(), 2);
            assert_eq!(rb.receipt.logs[0].address, [0xaa; 20]);
            assert_eq!(rb.receipt.logs[1].data, vec![1, 2, 3]);
        }
        _ => panic!("expected an EIP-1559 receipt"),
    }
}

#[test]
fn reverted_transaction_keeps_its_logs() {
    let logs = vec![log(0x01, 0x02)];
    let expected = alloy_bloom(&logs);
    let r = build(
        FoundryTxType::Eip2930,
        [1; 20],
        ExecutionResult::Revert { gas_used: 1, logs },
        &empty_state(),
        1,
    );
    match r {
        FoundryReceiptEnvelope::Eip2930(rb) => {
            assert!(!rb.receipt.status);
            assert_eq!(rb.receipt.logs.len(), 1);
            assert_eq!(rb.logs_bloom, expected);
        }
        _ => panic!("expected an EIP-2930 receipt"),
    }
}

#[test]
fn deposit_receipt_carries_sender_nonce() {
    let sender = [7u8; 20];
    let state = EvmState {
        accounts: vec![
            AccountState { address: [1; 20], nonce: 3 },
            AccountState { address: sender, nonce: 42 },
        ],
    };
    let r = build(
        FoundryTxType::Deposit,
        sender,
        ExecutionResult::Success { gas_used: 5, logs: vec![] },
        &state,
        5,
    );
    match r {
        FoundryReceiptEnvelope::Deposit(d) => {
            assert_eq!(d.receipt.deposit_nonce, Some(42));
            assert_eq!(d.receipt.deposit_receipt_version, Some(1));
            assert_eq!(d.receipt.inner.cumulative_gas_used, 5);
            assert!(d.receipt.inner.status);
            assert_eq!(d.logs_bloom, [0u8; 256]);
        }
        _ => panic!("expected a deposit receipt"),
    }
}

#[test]
fn deposit_receipt_without_sender_in_state_has_no_nonce() {
    let state = EvmState { accounts: vec![AccountState { address: [1; 20], nonce: 3 }] };
    let r = build(
        FoundryTxType::Deposit,
        [9; 20],
        ExecutionResult::Success { gas_used: 5, logs: vec![] },
        &state,
        5,
    );
    match r {
        FoundryReceiptEnvelope::Deposit(d) => {
            assert_eq!(d.receipt.deposit_nonce, None);
            assert_eq!(d.receipt.deposit_receipt_version, None);
        }
        _ => panic!("expected a deposit receipt"),
    }
}

#[test]
fn state_lookup_finds_account_nonce() {
    let state = EvmState {
        accounts: vec![
            AccountState { address: [1; 20], nonce: 3 },
            AccountState { address: [2; 20], nonce: 8 },
        ],
    };
    assert_eq!(state.get_nonce(&[2; 20]), Some(8));
    assert_eq!(state.get_nonce(&[1; 20]), Some(3));
    assert_eq!(state.get_nonce(&[3; 20]), None);
    assert_eq!(empty_state().get_nonce(&[1; 20]), None);
}

#[test]
fn execution_result_accessors() {
    let r = ExecutionResult::Halt { gas_used: 99, logs: vec![log(1, 2)] };
    assert!(!r.is_success());
    assert_eq!(r.gas_used(), 99);
    assert_eq!(r.into_logs().len(), 1);
    let r = ExecutionResult::Success { gas_used: 12, logs: vec![] };
    assert!(r.is_success());
    assert_eq!(r.gas_used(), 12);
}
