//! The per-transaction EVM environment of a pending transaction: recover overrides for
//! EIP-7702 authorizations, the enveloped bytes that optimism needs, and which EVM the
//! node runs.
use vstd::prelude::*;

use crate::primitives::{bytes_eq, Address, U256};

verus! {

/// An EIP-7702 authorization: chain id, delegate address and nonce.
#[derive(Debug, Clone, Copy)]
pub struct Authorization {
    pub chain_id: U256,
    pub address: Address,
    pub nonce: u64,
}

/// A signed EIP-7702 authorization, with its raw signature values.
#[derive(Debug, Clone, Copy)]
pub struct SignedAuthorization {
    pub inner: Authorization,
    pub y_parity: u8,
    pub r: U256,
    pub s: U256,
}

/// The outcome of recovering an authorization's signer.
#[derive(Debug, Clone, Copy)]
pub enum RecoveredAuthority {
    Valid(Address),
    Invalid,
}

/// An authorization with its recovered signer.
#[derive(Debug, Clone, Copy)]
pub struct RecoveredAuthorization {
    pub inner: Authorization,
    pub authority: RecoveredAuthority,
}

impl RecoveredAuthorization {
    /// The recovered signer, if recovery succeeded.
    pub fn authority(&self) -> (r: Option<Address>)
        ensures
            r == (match self.authority {
                RecoveredAuthority::Valid(a) => Some(a),
                RecoveredAuthority::Invalid => None,
            }),
    {
        match self.authority {
            RecoveredAuthority::Valid(a) => Some(a),
            RecoveredAuthority::Invalid => None,
        }
    }
}

/// One of two values.
#[derive(Debug)]
pub enum Either<L, R> {
    Left(L),
    Right(R),
}

/// An ECDSA signature: `r`, `s` and the parity of `y`.
#[derive(Debug, Clone, Copy)]
pub struct Signature {
    pub r: U256,
    pub s: U256,
    pub y_parity: bool,
}

/// The signature of an authorization, when its parity value is 0 or 1.
pub open spec fn authorization_signature_spec(auth: SignedAuthorization) -> Option<Signature> {
    if auth.y_parity <= 1 {
        Some(Signature { r: auth.r, s: auth.s, y_parity: auth.y_parity == 1 })
    } else {
        None
    }
}

/// The 65-byte form of a signature: `r` and `s` big-endian, then `27 + y_parity`.
pub open spec fn signature_bytes_spec(sig: Signature) -> Seq<u8> {
    sig.r@ + sig.s@ + seq![if sig.y_parity { 28u8 } else { 27u8 }]
}

/// `alloy_eips::eip7702::SignedAuthorization::signature`.
///
/// Trusted: the source returns `Signature::new(r, s, y_parity == 1)` when the parity
/// value is at most 1, and an error otherwise; the error becomes `None` here.
#[verifier::external_body]
fn authorization_signature(auth: &SignedAuthorization) -> (r: Option<Signature>)
    ensures
        r == authorization_signature_spec(*auth),
{
    let signed = alloy_eips::eip7702::SignedAuthorization::new_unchecked(
        alloy_eips::eip7702::Authorization {
            chain_id: alloy_primitives::U256::from_be_bytes(auth.inner.chain_id),
            address: alloy_primitives::Address::from(auth.inner.address),
            nonce: auth.inner.nonce,
        },
        auth.y_parity,
        alloy_primitives::U256::from_be_bytes(auth.r),
        alloy_primitives::U256::from_be_bytes(auth.s),
    );
    match signed.signature() {
        Ok(sig) => Some(Signature { r: sig.r().to_be_bytes::<32>(), s: sig.s().to_be_bytes::<32>(), y_parity: sig.v() }),
        Err(_) => None,
    }
}

/// `alloy_primitives::Signature::as_bytes`.
///
/// Trusted: the source writes `r` and `s` as 32 big-endian bytes each, then the `v` byte
/// `27 + y_parity`.
#[verifier::external_body]
fn signature_bytes(sig: &Signature) -> (r: [u8; 65])
    ensures
        r@ == signature_bytes_spec(*sig),
{
    alloy_primitives::Signature::new(
        alloy_primitives::U256::from_be_bytes(sig.r),
        alloy_primitives::U256::from_be_bytes(sig.s),
        sig.y_parity,
    ).as_bytes()
}

/// A signer override: authorizations carrying `signature` are taken as signed by `address`.
pub struct RecoverOverride {
    pub signature: Vec<u8>,
    pub address: Address,
}

/// The node's cheat settings that bear on transaction environments.
pub struct CheatsManager {
    pub recover_overrides: Vec<RecoverOverride>,
}

/// The address of the first override for `signature`, if any.
pub open spec fn override_in(overrides: Seq<RecoverOverride>, signature: Seq<u8>) -> Option<
    Address,
>
    decreases overrides.len(),
{
    if overrides.len() == 0 {
        None
    } else if overrides[0].signature@ == signature {
        Some(overrides[0].address)
    } else {
        override_in(overrides.drop_first(), signature)
    }
}

/// `override_in` finds the first override for `signature`: if override `i` is for
/// `signature` and none before it is, the result is the address of override `i`.
proof fn lemma_override_in_first(overrides: Seq<RecoverOverride>, signature: Seq<u8>, i: int)
    requires
        0 <= i < overrides.len(),
        overrides[i].signature@ == signature,
        forall|j: int| 0 <= j < i ==> overrides[j].signature@ != signature,
    ensures
        override_in(overrides, signature) == Some(overrides[i].address),
    decreases i,
{
    if i > 0 {
        let rest = overrides.drop_first();
        assert forall|j: int| 0 <= j < i - 1 implies rest[j].signature@ != signature by {
            assert(rest[j] == overrides[j + 1]);
        }
        lemma_override_in_first(rest, signature, i - 1);
    }
}

/// `override_in` finds nothing exactly when no override is for `signature`.
proof fn lemma_override_in_none(overrides: Seq<RecoverOverride>, signature: Seq<u8>)
    ensures
        override_in(overrides, signature) is None <==> forall|j: int|
            0 <= j < overrides.len() ==> #[trigger] overrides[j].signature@ != signature,
    decreases overrides.len(),
{
    if overrides.len() > 0 {
        let rest = overrides.drop_first();
        lemma_override_in_none(rest, signature);
        if overrides[0].signature@ != signature {
            assert forall|j: int| 0 <= j < rest.len() implies (#[trigger] rest[j]) == overrides[j + 1] by {}
            if forall|j: int| 0 <= j < rest.len() ==> #[trigger] rest[j].signature@ != signature {
                assert forall|j: int| 0 <= j < overrides.len() implies #[trigger] overrides[j].signature@ != signature by {
                    if j > 0 {
                        assert(rest[j - 1] == overrides[j]);
                    }
                }
            }
        }
    }
}

/// Byte-wise equality of a byte vector and a fixed-size byte array.
fn vec_eq_array<const N: usize>(a: &Vec<u8>, b: &[u8; N]) -> (r: bool)
    ensures
        r == (a@ == b@),
{
    if a.len() != N {
        return false;
    }
    let mut i: usize = 0;
    while i < N
        invariant
            i <= N,
            a@.len() == N,
            b@.len() == N,
            forall|j: int| 0 <= j < i ==> a@[j] == b@[j],
        decreases N - i,
    {
        if a[i] != b[i] {
            return false;
        }
        i = i + 1;
    }
    assert(a@ =~= b@);
    true
}

impl CheatsManager {
    pub open spec fn override_for(&self, signature: Seq<u8>) -> Option<Address> {
        override_in(self.recover_overrides@, signature)
    }

    /// No signature has two overrides (the overrides are a map from signature to signer).
    pub open spec fn wf(&self) -> bool {
        forall|i: int, j: int|
            0 <= i < j < self.recover_overrides@.len() ==> self.recover_overrides@[i].signature@
                != self.recover_overrides@[j].signature@
    }

    /// With well-formed overrides, the override lookup is the lookup of a map from
    /// signature to signer: it gives the address of the override for `signature` when
    /// there is one, and nothing exactly when no override is for `signature`.
    pub proof fn lemma_override_for_is_map_lookup(&self, signature: Seq<u8>)
        requires
            self.wf(),
        ensures
            forall|i: int|
                0 <= i < self.recover_overrides@.len()
                    && #[trigger] self.recover_overrides@[i].signature@ == signature
                    ==> self.override_for(signature) == Some(self.recover_overrides@[i].address),
            self.override_for(signature) is None <==> forall|i: int|
                0 <= i < self.recover_overrides@.len()
                    ==> #[trigger] self.recover_overrides@[i].signature@ != signature,
    {
        let overrides = self.recover_overrides@;
        assert forall|i: int|
            0 <= i < overrides.len() && #[trigger] overrides[i].signature@ == signature
                implies self.override_for(signature) == Some(overrides[i].address) by {
            assert forall|j: int| 0 <= j < i implies overrides[j].signature@ != signature by {
                assert(overrides[j].signature@ != overrides[i].signature@);
            }
            lemma_override_in_first(overrides, signature, i);
        }
        lemma_override_in_none(overrides, signature);
    }

    /// Whether any signer override is set.
    pub fn has_recover_overrides(&self) -> (r: bool)
        ensures
            r == (self.recover_overrides@.len() > 0),
    {
        self.recover_overrides.len() > 0
    }

    /// The signer override for a 65-byte signature, if any.
    pub fn get_recover_override(&self, signature: &[u8; 65]) -> (r: Option<Address>)
        ensures
            r == self.override_for(signature@),
    {
        let n = self.recover_overrides.len();
        let mut i: usize = 0;
        assert(self.recover_overrides@.skip(0) =~= self.recover_overrides@);
        while i < n
            invariant
                n == self.recover_overrides@.len(),
                i <= n,
                override_in(self.recover_overrides@, signature@) == override_in(
                    self.recover_overrides@.skip(i as int),
                    signature@,
                ),
            decreases n - i,
        {
            let o = &self.recover_overrides[i];
            proof {
                let s = self.recover_overrides@.skip(i as int);
                assert(s[0] == self.recover_overrides@[i as int]);
                assert(s.drop_first() =~= self.recover_overrides@.skip(i + 1));
            }
            if vec_eq_array(&o.signature, signature) {
                return Some(o.address);
            }
            i = i + 1;
        }
        assert(self.recover_overrides@.skip(n as int).len() == 0);
        None
    }
}

/// What the override does to one entry of the environment's authorization list, given
/// the transaction's signed authorization at the same position: a recovered
/// authorization whose signer could not be recovered, and whose signature is well formed
/// and has an override, takes the override's address as its signer. Every other entry
/// stays as it is.
pub open spec fn overridden_entry(
    signed: SignedAuthorization,
    entry: Either<SignedAuthorization, RecoveredAuthorization>,
    cheats: CheatsManager,
) -> Either<SignedAuthorization, RecoveredAuthorization> {
    match entry {
        Either::Left(l) => Either::Left(l),
        Either::Right(rec) => {
            if rec.authority is Invalid && authorization_signature_spec(signed) is Some
                && cheats.override_for(
                    signature_bytes_spec(authorization_signature_spec(signed).unwrap()),
                ) is Some {
                Either::Right(
                    RecoveredAuthorization {
                        inner: rec.inner,
                        authority: RecoveredAuthority::Valid(
                            cheats.override_for(
                                signature_bytes_spec(authorization_signature_spec(signed).unwrap()),
                            ).unwrap(),
                        ),
                    },
                )
            } else {
                Either::Right(rec)
            }
        },
    }
}

/// Signer overrides only fill in authorities that could not be recovered: the
/// authorization itself never changes, an unrecovered entry stays unrecovered, and a
/// recovered signer is kept.
pub proof fn lemma_override_only_fills_invalid(
    signed: SignedAuthorization,
    entry: Either<SignedAuthorization, RecoveredAuthorization>,
    cheats: CheatsManager,
)
    ensures
        entry matches Either::Left(l) ==> overridden_entry(signed, entry, cheats) == entry,
        entry matches Either::Right(rec) ==> (overridden_entry(signed, entry, cheats) matches Either::Right(
            out,
        ) && out.inner == rec.inner && (rec.authority is Valid ==> out == rec)),
{
}

/// A signer override applies to every authorization, whatever its chain id, address or
/// nonce: an entry whose signer could not be recovered, for a signed authorization with
/// parity 0 or 1, takes as its signer the address of the first override whose signature
/// is the authorization's `r`, `s` and `27 + parity`; the authorization stays as it was.
pub proof fn lemma_override_applies_to_every_authorization(
    signed: SignedAuthorization,
    rec: RecoveredAuthorization,
    cheats: CheatsManager,
    k: int,
)
    requires
        rec.authority is Invalid,
        signed.y_parity <= 1,
        0 <= k < cheats.recover_overrides@.len(),
        cheats.recover_overrides@[k].signature@ == signed.r@ + signed.s@ + seq![(27 + signed.y_parity) as u8],
        forall|j: int|
            0 <= j < k ==> cheats.recover_overrides@[j].signature@ != signed.r@ + signed.s@ + seq![
                (27 + signed.y_parity) as u8,
            ],
    ensures
        overridden_entry(signed, Either::Right(rec), cheats) == Either::<
            SignedAuthorization,
            RecoveredAuthorization,
        >::Right(
            RecoveredAuthorization {
                inner: rec.inner,
                authority: RecoveredAuthority::Valid(cheats.recover_overrides@[k].address),
            },
        ),
{
    let bytes = signed.r@ + signed.s@ + seq![(27 + signed.y_parity) as u8];
    let sig = authorization_signature_spec(signed).unwrap();
    assert(signature_bytes_spec(sig) =~= bytes);
    lemma_override_in_first(cheats.recover_overrides@, bytes, k);
}

/// What an override does depends on the signed authorization's signature alone: two
/// signed authorizations with the same parity, `r` and `s` (whatever their chain ids,
/// addresses and nonces) make the same of an entry.
pub proof fn lemma_override_depends_on_signature_only(
    signed_a: SignedAuthorization,
    signed_b: SignedAuthorization,
    entry: Either<SignedAuthorization, RecoveredAuthorization>,
    cheats: CheatsManager,
)
    requires
        signed_a.y_parity == signed_b.y_parity,
        signed_a.r == signed_b.r,
        signed_a.s == signed_b.s,
    ensures
        overridden_entry(signed_a, entry, cheats) == overridden_entry(signed_b, entry, cheats),
{
}

/// Applying the signer overrides twice gives what applying them once gives.
pub proof fn lemma_override_idempotent(
    signed: SignedAuthorization,
    entry: Either<SignedAuthorization, RecoveredAuthorization>,
    cheats: CheatsManager,
)
    ensures
        overridden_entry(signed, overridden_entry(signed, entry, cheats), cheats)
            == overridden_entry(signed, entry, cheats),
{
}

/// Applies the signer overrides to an authorization list, position by position against
/// the transaction's signed authorizations; the result is as long as the shorter list.
pub fn override_authorities(
    signed: &Vec<SignedAuthorization>,
    entries: &Vec<Either<SignedAuthorization, RecoveredAuthorization>>,
    cheats: &CheatsManager,
) -> (r: Vec<Either<SignedAuthorization, RecoveredAuthorization>>)
    ensures
        r@.len() == if signed@.len() <= entries@.len() {
            signed@.len()
        } else {
            entries@.len()
        },
        forall|i: int|
            0 <= i < r@.len() ==> #[trigger] r@[i] == overridden_entry(signed@[i], entries@[i], *cheats),
{
    let n = if signed.len() <= entries.len() {
        signed.len()
    } else {
        entries.len()
    };
    let mut out: Vec<Either<SignedAuthorization, RecoveredAuthorization>> = Vec::new();
    let mut i: usize = 0;
    while i < n
        invariant
            i <= n,
            n <= signed@.len(),
            n <= entries@.len(),
            out@.len() == i,
            forall|k: int| 0 <= k < i ==> #[trigger] out@[k] == overridden_entry(signed@[k], entries@[k], *cheats),
        decreases n - i,
    {
        let signed_auth = &signed[i];
        let new_entry = match &entries[i] {
            Either::Left(l) => Either::Left(*l),
            Either::Right(recovered_auth) => {
                let recovered_auth = *recovered_auth;
                let mut replaced: Option<Address> = None;
                if recovered_auth.authority().is_none() {
                    if let Some(signature) = authorization_signature(signed_auth) {
                        let sig_bytes = signature_bytes(&signature);
                        replaced = cheats.get_recover_override(&sig_bytes);
                    }
                }
                match replaced {
                    Some(override_addr) => Either::Right(
                        RecoveredAuthorization {
                            inner: recovered_auth.inner,
                            authority: RecoveredAuthority::Valid(override_addr),
                        },
                    ),
                    None => Either::Right(recovered_auth),
                }
            },
        };
        out.push(new_entry);
        i = i + 1;
    }
    out
}

/// The parts of a transaction environment that depend on more than the transaction's
/// own fields.
pub struct TxEnvParts {
    /// The EIP-7702 authorization list, each entry unrecovered or recovered.
    pub authorization_list: Vec<Either<SignedAuthorization, RecoveredAuthorization>>,
    /// The EIP-2718 encoding of the transaction, which optimism's EVM reads.
    pub enveloped_tx: Option<Vec<u8>>,
}

/// What a pending transaction contributes to its environment.
pub struct PendingTx {
    /// The signed authorizations, for an EIP-7702 transaction; `None` for other types.
    pub eip7702_authorizations: Option<Vec<SignedAuthorization>>,
    /// The transaction's EIP-2718 encoding.
    pub encoded_2718: Vec<u8>,
}

/// Finishes the environment of a pending transaction from the one its fields give
/// (`env`): for an EIP-7702 transaction, when signer overrides are set, they are applied
/// to the authorization list; on optimism the transaction's encoding is attached.
pub fn build_tx_env_for_pending(
    tx: &PendingTx,
    cheats: &CheatsManager,
    is_optimism: bool,
    env: TxEnvParts,
) -> (r: TxEnvParts)
    ensures
        match tx.eip7702_authorizations {
            Some(signed) if cheats.recover_overrides@.len() > 0 => {
                &&& r.authorization_list@.len() == if signed@.len()
                    <= env.authorization_list@.len() {
                    signed@.len()
                } else {
                    env.authorization_list@.len()
                }
                &&& forall|i: int|
                    0 <= i < r.authorization_list@.len() ==> #[trigger] r.authorization_list@[i]
                        == overridden_entry(signed@[i], env.authorization_list@[i], *cheats)
            },
            _ => r.authorization_list == env.authorization_list,
        },
        is_optimism ==> (r.enveloped_tx matches Some(e) && e@ == tx.encoded_2718@),
        !is_optimism ==> r.enveloped_tx == env.enveloped_tx,
{
    let TxEnvParts { authorization_list, enveloped_tx } = env;
    let authorization_list = match &tx.eip7702_authorizations {
        Some(signed) => {
            if cheats.has_recover_overrides() {
                override_authorities(signed, &authorization_list, cheats)
            } else {
                authorization_list
            }
        },
        None => authorization_list,
    };
    let enveloped_tx = if is_optimism {
        Some(tx.encoded_2718.clone())
    } else {
        enveloped_tx
    };
    TxEnvParts { authorization_list, enveloped_tx }
}

/// Which EVM a node runs.
#[derive(Debug, Clone, Copy, PartialEq, Eq, Structural)]
pub enum EvmFlavor {
    /// Optimism's EVM, at the Isthmus spec with mainnet gas parameters.
    OpIsthmus,
    /// The Ethereum EVM, with the node's configured environment.
    Eth,
}

/// The node's environment as the EVM factory reads it: the EVM environment (its
/// configuration and block environment) and whether the node runs an optimism network.
pub struct Env<C> {
    pub evm_env: C,
    pub is_optimism: bool,
}

/// The EVM to create: its flavor, the EVM environment, and the database and inspector it
/// runs with. For [`EvmFlavor::OpIsthmus`] the environment's configuration is to be taken
/// at the Isthmus spec with mainnet gas parameters.
pub struct EvmSetup<DB, I, C> {
    pub flavor: EvmFlavor,
    pub evm_env: C,
    pub db: DB,
    pub inspector: I,
}

/// Chooses the EVM for a node: optimism's (at Isthmus) on an optimism network, the
/// Ethereum EVM otherwise, over the node's EVM environment and the given database and
/// inspector.
pub fn new_eth_evm_with_inspector<DB, I, C>(db: DB, env: Env<C>, inspector: I) -> (r: EvmSetup<
    DB,
    I,
    C,
>)
    ensures
        r.flavor == (if env.is_optimism {
            EvmFlavor::OpIsthmus
        } else {
            EvmFlavor::Eth
        }),
        r.evm_env == env.evm_env,
        r.db == db,
        r.inspector == inspector,
{
    let Env { evm_env, is_optimism } = env;
    let flavor = if is_optimism {
        EvmFlavor::OpIsthmus
    } else {
        EvmFlavor::Eth
    };
    EvmSetup { flavor, evm_env, db, inspector }
}

} // verus!
