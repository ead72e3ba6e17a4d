use anvil_executor::tx_env::{
    build_tx_env_for_pending, new_eth_evm_with_inspector, Env, override_authorities, Authorization, CheatsManager,
    Either, EvmFlavor, PendingTx, RecoverOverride, RecoveredAuthority, RecoveredAuthorization,
    SignedAuthorization, TxEnvParts,
};

fn auth(nonce: u64) -> Authorization {
    Authorization { chain_id: [0; 32], address: [0x44; 20], nonce }
}

fn signed(nonce: u64, y_parity: u8) -> SignedAuthorization {
    SignedAuthorization { inner: auth(nonce), y_parity, r: [0x11; 32], s: [0x22; 32] }
}

fn sig_bytes(y_parity: u8) -> Vec<u8> {
    let mut v = vec![0x11u8; 32];
    v.extend(vec![0x22u8; 32]);
    v.push(27 + y_parity);
    v
}

fn invalid(nonce: u64) -> Either<SignedAuthorization, RecoveredAuthorization> {
    Either::Right(RecoveredAuthorization { inner: auth(nonce), authority: RecoveredAuthority::Invalid })
}

fn cheats_with(sig: Vec<u8>, address: [u8; 20]) -> CheatsManager {
    CheatsManager { recover_overrides: vec![RecoverOverride { signature: sig, address }] }
}

fn authority(e: &Either<SignedAuthorization, RecoveredAuthorization>) -> Option<Option<[u8; 20]>> {
    match e {
        Either::Left(_) => None,
        Either::Right(r) => Some(r.authority()),
    }
}

#[test]
fn override_replaces_unrecovered_authority() {
    let cheats = cheats_with(sig_bytes(1), [0x99; 20]);
    let out = override_authorities(&vec![signed(1, 1)], &vec![invalid(1)], &cheats);
    assert_eq!(out.len(), 1);
    assert_eq!(authority(&out[0]), Some(Some([0x99; 20])));
    match &out[0] {
        Either::Right(r) => assert_eq!(r.inner.nonce, 1),
        _ => panic!("expected a recovered authorization"),
    }
}

#[test]
fn signature_key_matches_alloy_signature_bytes() {
    let sig = alloy_primitives::Signature::new(
        alloy_primitives::U256::from_be_bytes([0x11; 32]),
        alloy_primitives::U256::from_be_bytes([0x22; 32]),
        false,
    );
    assert_eq!(sig.as_bytes().to_vec(), sig_bytes(0));
    let cheats = cheats_with(sig.as_bytes().to_vec(), [0x77; 20]);
    let out = override_authorities(&vec![signed(1, 0)], &vec![invalid(1)], &cheats);
    assert_eq!(authority(&out[0]), Some(Some([0x77; 20])));
}

#[test]
fn override_needs_matching_signature() {
    let cheats = cheats_with(sig_bytes(0), [0x99; 20]);
    let out = override_authorities(&vec![signed(1, 1)], &vec![invalid(1)], &cheats);
    assert_eq!(authority(&out[0]), Some(None));
}

#[test]
fn override_skips_invalid_parity() {
    let cheats = cheats_with(sig_bytes(2), [0x99; 20]);
    let out = override_authorities(&vec![signed(1, 2)], &vec![invalid(1)], &cheats);
    assert_eq!(authority(&out[0]), Some(None));
}

#[test]
fn override_keeps_recovered_and_unrecovered_entries() {
    let cheats = cheats_with(sig_bytes(1), [0x99; 20]);
    let valid = Either::Right(RecoveredAuthorization {
        inner: auth(2),
        authority: RecoveredAuthority::Valid([0x33; 20]),
    });
    let left = Either::Left(signed(3, 1));
    let out = override_authorities(
        &vec![signed(2, 1), signed(3, 1)],
        &vec![valid, left],
        &cheats,
    );
    assert_eq!(authority(&out[0]), Some(Some([0x33; 20])));
    assert_eq!(authority(&out[1]), None);
}

#[test]
fn override_list_is_as_long_as_the_shorter_list() {
    let cheats = cheats_with(sig_bytes(1), [0x99; 20]);
    let out = override_authorities(&vec![signed(1, 1)], &vec![invalid(1), invalid(2)], &cheats);
    assert_eq!(out.len(), 1);
    let out = override_authorities(&vec![signed(1, 1), signed(2, 1)], &vec![invalid(1)], &cheats);
    assert_eq!(out.len(), 1);
}

#[test]
fn env_for_eip7702_tx_applies_overrides() {
    let cheats = cheats_with(sig_bytes(1), [0x99; 20]);
    let tx = PendingTx { eip7702_authorizations: Some(vec![signed(1, 1)]), encoded_2718: vec![4, 5] };
    let env = TxEnvParts { authorization_list: vec![invalid(1)], enveloped_tx: None };
    let r = build_tx_env_for_pending(&tx, &cheats, false, env);
    assert_eq!(authority(&r.authorization_list[0]), Some(Some([0x99; 20])));
    assert!(r.enveloped_tx.is_none());
}

#[test]
fn env_without_overrides_is_unchanged() {
    let cheats = CheatsManager { recover_overrides: vec![] };
    assert!(!cheats.has_recover_overrides());
    let tx = PendingTx { eip7702_authorizations: Some(vec![signed(1, 1)]), encoded_2718: vec![4, 5] };
    let env = TxEnvParts { authorization_list: vec![invalid(1), invalid(2)], enveloped_tx: None };
    let r = build_tx_env_for_pending(&tx, &cheats, false, env);
    assert_eq!(r.authorization_list.len(), 2);
    assert_eq!(authority(&r.authorization_list[0]), Some(None));
}

#[test]
fn env_for_non_7702_tx_ignores_overrides() {
    let cheats = cheats_with(sig_bytes(1), [0x99; 20]);
    let tx = PendingTx { eip7702_authorizations: None, encoded_2718: vec![1] };
    let env = TxEnvParts { authorization_list: vec![invalid(1)], enveloped_tx: None };
    let r = build_tx_env_for_pending(&tx, &cheats, false, env);
    assert_eq!(authority(&r.authorization_list[0]), Some(None));
}

#[test]
fn optimism_env_carries_encoded_tx() {
    let cheats = CheatsManager { recover_overrides: vec![] };
    let tx = PendingTx { eip7702_authorizations: None, encoded_2718: vec![0x7e, 1, 2] };
    let env = TxEnvParts { authorization_list: vec![], enveloped_tx: None };
    let r = build_tx_env_for_pending(&tx, &cheats, true, env);
    assert_eq!(r.enveloped_tx, Some(vec![0x7e, 1, 2]));
    let env = TxEnvParts { authorization_list: vec![], enveloped_tx: Some(vec![9]) };
    let r = build_tx_env_for_pending(&tx, &cheats, false, env);
    assert_eq!(r.enveloped_tx, Some(vec![9]));
}

#[test]
fn cheats_lookup() {
    let cheats = CheatsManager {
        recover_overrides: vec![
            RecoverOverride { signature: vec![1; 65], address: [1; 20] },
            RecoverOverride { signature: vec![2; 65], address: [2; 20] },
        ],
    };
    assert!(cheats.has_recover_overrides());
    assert_eq!(cheats.get_recover_override(&[2; 65]), Some([2; 20]));
    assert_eq!(cheats.get_recover_override(&[3; 65]), None);
}

#[test]
fn evm_follows_network() {
    let op = new_eth_evm_with_inspector(vec![1u8], Env { evm_env: 7u64, is_optimism: true }, "inspector");
    assert_eq!(op.flavor, EvmFlavor::OpIsthmus);
    assert_eq!(op.evm_env, 7u64);
    assert_eq!(op.db, vec![1u8]);
    assert_eq!(op.inspector, "inspector");
    let eth = new_eth_evm_with_inspector(5u32, Env { evm_env: "cfg", is_optimism: false }, ());
    assert_eq!(eth.flavor, EvmFlavor::Eth);
    assert_eq!(eth.evm_env, "cfg");
    assert_eq!(eth.db, 5);
}

#[test]
fn applying_overrides_twice_changes_nothing_more() {
    let cheats = cheats_with(sig_bytes(1), [0x99; 20]);
    let signed_list = vec![signed(1, 1), signed(2, 1)];
    let once = override_authorities(&signed_list, &vec![invalid(1), Either::Left(signed(2, 1))], &cheats);
    let twice = override_authorities(&signed_list, &once, &cheats);
    assert_eq!(twice.len(), once.len());
    for (a, b) in once.iter().zip(twice.iter()) {
        assert_eq!(authority(a), authority(b));
    }
    assert_eq!(authority(&twice[0]), Some(Some([0x99; 20])));
}
