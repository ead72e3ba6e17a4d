use anvil_executor::transaction::{
    AccessList, AccessListItem, BlobTransactionSidecar, BlobTransactionSidecarEip7594,
    BlobTransactionSidecarVariant, FoundryTransactionBuilder, FoundryTxRequest,
    TempoTransactionRequest, TransactionInput, TransactionRequest, TxKind, WithOtherFields,
};
use anvil_executor::tx_env::{Authorization, SignedAuthorization};

fn sidecar_4844(commitments: Vec<[u8; 48]>) -> BlobTransactionSidecar {
    BlobTransactionSidecar { blobs: vec![], proofs: vec![], commitments }
}

fn auth() -> SignedAuthorization {
    SignedAuthorization {
        inner: Authorization { chain_id: [0; 32], address: [1; 20], nonce: 0 },
        y_parity: 0,
        r: [2; 32],
        s: [3; 32],
    }
}

#[test]
fn base_fields_are_read_from_the_request() {
    let mut tx = TransactionRequest::default();
    assert_eq!(tx.ftx_from(), None);
    tx.from = Some([1; 20]);
    tx.to = Some(TxKind::Call([2; 20]));
    tx.nonce = Some(4);
    tx.gas = Some(21_000);
    tx.chain_id = Some(31337);
    tx.gas_price = Some(10);
    tx.max_fee_per_gas = Some(20);
    tx.max_priority_fee_per_gas = Some(1);
    tx.transaction_type = Some(2);
    tx.value = Some([0; 32]);
    tx.access_list = Some(AccessList(vec![AccessListItem { address: [9; 20], storage_keys: vec![] }]));
    assert_eq!(tx.ftx_from(), Some([1; 20]));
    assert!(matches!(tx.ftx_kind(), Some(TxKind::Call(a)) if a == [2; 20]));
    assert_eq!(tx.ftx_nonce(), Some(4));
    assert_eq!(tx.ftx_gas_limit(), Some(21_000));
    assert_eq!(tx.ftx_chain_id(), Some(31337));
    assert_eq!(tx.ftx_gas_price(), Some(10));
    assert_eq!(tx.ftx_max_fee_per_gas(), Some(20));
    assert_eq!(tx.ftx_max_priority_fee_per_gas(), Some(1));
    assert_eq!(tx.ftx_transaction_type(), Some(2));
    assert_eq!(tx.ftx_value(), Some([0; 32]));
    assert_eq!(tx.ftx_access_list().unwrap().0[0].address, [9; 20]);
}

#[test]
fn input_prefers_input_over_data() {
    let mut tx = TransactionRequest::default();
    assert!(tx.ftx_input().is_none());
    tx.input = TransactionInput { input: None, data: Some(vec![2]) };
    assert_eq!(tx.ftx_input(), Some(&vec![2]));
    tx.input = TransactionInput { input: Some(vec![1]), data: Some(vec![2]) };
    assert_eq!(tx.ftx_input(), Some(&vec![1]));
}

#[test]
fn blob_fields_read_back_what_was_set() {
    let mut tx = TransactionRequest::default();
    tx.set_max_fee_per_blob_gas(7);
    assert_eq!(tx.max_fee_per_blob_gas(), Some(7));
    tx.set_blob_versioned_hashes(vec![[5; 32]]);
    assert_eq!(tx.blob_versioned_hashes(), Some(&[[5u8; 32]][..]));
    tx.set_authorization_list(vec![auth()]);
    assert_eq!(tx.authorization_list().unwrap().len(), 1);
}

#[test]
fn setting_sidecar_populates_versioned_hashes() {
    let c1 = [0x33u8; 48];
    let c2 = [0x44u8; 48];
    let mut tx = TransactionRequest::default();
    tx.set_blob_sidecar(BlobTransactionSidecarVariant::Eip4844(sidecar_4844(vec![c1, c2])));
    let hashes = tx.blob_versioned_hashes().unwrap().to_vec();
    assert_eq!(hashes.len(), 2);
    assert_eq!(hashes[0], alloy_eips::eip4844::kzg_to_versioned_hash(&c1).0);
    assert_eq!(hashes[1], alloy_eips::eip4844::kzg_to_versioned_hash(&c2).0);
    assert_eq!(hashes[0][0], 1);
    assert_ne!(hashes[0], hashes[1]);
    assert!(tx.blob_sidecar_4844().is_some());
    assert!(tx.blob_sidecar_7594().is_none());
}

#[test]
fn eip7594_sidecar_is_seen_as_such() {
    let mut tx = TransactionRequest::default();
    tx.set_blob_sidecar_7594(BlobTransactionSidecarEip7594 {
        blobs: vec![],
        commitments: vec![[1; 48]],
        cell_proofs: vec![],
    });
    assert!(tx.blob_sidecar_7594().is_some());
    assert!(tx.blob_sidecar_4844().is_none());
    assert_eq!(tx.blob_versioned_hashes().unwrap().len(), 1);
}

#[test]
fn populate_without_sidecar_keeps_hashes() {
    let mut tx = TransactionRequest::default();
    tx.blob_versioned_hashes = Some(vec![[8; 32]]);
    tx.populate_blob_hashes();
    assert_eq!(tx.blob_versioned_hashes, Some(vec![[8; 32]]));
}

#[test]
fn builders_set_fields() {
    let tx = TransactionRequest::default()
        .with_max_fee_per_blob_gas(3)
        .with_blob_sidecar_4844(sidecar_4844(vec![[2; 48]]))
        .with_authorization_list(vec![auth()]);
    assert_eq!(tx.max_fee_per_blob_gas(), Some(3));
    assert_eq!(tx.blob_versioned_hashes().unwrap().len(), 1);
    assert_eq!(tx.authorization_list().unwrap().len(), 1);
    // Ethereum requests have no Tempo fields.
    let tx = tx.with_fee_token([4; 20]).with_nonce_key([5; 32]);
    assert_eq!(tx.fee_token(), None);
    assert_eq!(tx.nonce_key(), None);
}

#[test]
fn other_fields_request_delegates_to_inner() {
    let mut inner = TransactionRequest::default();
    inner.from = Some([6; 20]);
    let mut tx = WithOtherFields::new(inner);
    assert!(tx.other.is_empty());
    assert_eq!(tx.ftx_from(), Some([6; 20]));
    tx.set_max_fee_per_blob_gas(11);
    assert_eq!(tx.max_fee_per_blob_gas(), Some(11));
    assert_eq!(tx.inner.max_fee_per_blob_gas, Some(11));
    let tx = tx.with_blob_sidecar(BlobTransactionSidecarVariant::Eip4844(sidecar_4844(vec![[1; 48]])));
    assert_eq!(tx.blob_versioned_hashes().unwrap().len(), 1);
}

#[test]
fn tempo_request_fields() {
    let mut inner = TransactionRequest::default();
    inner.nonce = Some(3);
    let mut tx = TempoTransactionRequest {
        inner,
        fee_token: None,
        nonce_key: None,
        authorization_list: None,
    };
    assert_eq!(tx.ftx_nonce(), Some(3));
    tx.set_fee_token([7; 20]);
    tx.set_nonce_key([1; 32]);
    tx.set_authorization_list(vec![auth()]);
    assert_eq!(tx.fee_token(), Some([7; 20]));
    assert_eq!(tx.nonce_key(), Some([1; 32]));
    assert_eq!(tx.authorization_list().unwrap().len(), 1);
    // Tempo requests carry no blob fields.
    tx.set_max_fee_per_blob_gas(9);
    assert_eq!(tx.max_fee_per_blob_gas(), None);
    let tx = tx.with_blob_sidecar_4844(sidecar_4844(vec![[1; 48]]));
    assert!(tx.blob_sidecar().is_none());
    assert!(tx.blob_sidecar_4844().is_none());
    assert!(tx.blob_versioned_hashes().is_none());
    let tx = tx.with_fee_token([8; 20]);
    assert_eq!(tx.fee_token(), Some([8; 20]));
}
