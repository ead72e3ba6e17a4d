//! Transaction requests: the fields Foundry reads and sets on the requests of each
//! network, with blob sidecars, EIP-7702 authorization lists and Tempo fields.
use vstd::prelude::*;

use crate::primitives::{Address, B256, U256};
use crate::tx_env::SignedAuthorization;

verus! {

/// A reference to the value inside an option, as `Option::as_ref` gives it.
pub open spec fn opt_ref<T>(o: &Option<T>) -> Option<&T> {
    match o {
        Some(x) => Some(x),
        None => None,
    }
}

/// `a` and `b` are the same value.
pub open spec fn same_ref<T: ?Sized>(a: &T, b: &T) -> bool {
    a == b
}

/// The target of a transaction: a call to an address, or a contract creation.
#[derive(Debug, Clone, Copy)]
pub enum TxKind {
    Create,
    Call(Address),
}

/// An EIP-2930 access list entry.
pub struct AccessListItem {
    pub address: Address,
    pub storage_keys: Vec<B256>,
}

/// An EIP-2930 access list.
pub struct AccessList(pub Vec<AccessListItem>);

/// An EIP-4844 blob sidecar: blobs, their KZG commitments and proofs.
pub struct BlobTransactionSidecar {
    pub blobs: Vec<Vec<u8>>,
    pub commitments: Vec<[u8; 48]>,
    pub proofs: Vec<[u8; 48]>,
}

/// An EIP-7594 blob sidecar: blobs, their KZG commitments and cell proofs.
pub struct BlobTransactionSidecarEip7594 {
    pub blobs: Vec<Vec<u8>>,
    pub commitments: Vec<[u8; 48]>,
    pub cell_proofs: Vec<[u8; 48]>,
}

/// A blob sidecar of either kind.
pub enum BlobTransactionSidecarVariant {
    Eip4844(BlobTransactionSidecar),
    Eip7594(BlobTransactionSidecarEip7594),
}

/// The SHA-256 digest of a byte sequence, as the `sha2` crate computes it.
pub uninterp spec fn sha256_digest(data: Seq<u8>) -> Seq<u8>;

/// The EIP-4844 versioned hash of a KZG commitment: its SHA-256 digest with the first
/// byte replaced by the version `0x01`.
pub open spec fn versioned_hash_spec(commitment: Seq<u8>) -> Seq<u8> {
    seq![1u8] + sha256_digest(commitment).subrange(1, 32)
}

/// `alloy_eips::eip4844::kzg_to_versioned_hash`.
///
/// Trusted: the source hashes the 48-byte commitment with `sha2::Sha256` and sets the
/// first byte of the digest to `VERSIONED_HASH_VERSION_KZG` (1).
#[verifier::external_body]
fn kzg_to_versioned_hash(commitment: &[u8; 48]) -> (r: B256)
    ensures
        r@ == seq![1u8] + sha256_digest(commitment@).subrange(1, 32),
{
    alloy_eips::eip4844::kzg_to_versioned_hash(commitment.as_slice()).0
}

impl BlobTransactionSidecarVariant {
    /// The KZG commitments of the sidecar.
    pub open spec fn spec_commitments(&self) -> Seq<[u8; 48]> {
        match self {
            BlobTransactionSidecarVariant::Eip4844(s) => s.commitments@,
            BlobTransactionSidecarVariant::Eip7594(s) => s.commitments@,
        }
    }

    /// The EIP-4844 sidecar, if the sidecar is of that kind.
    pub fn as_eip4844(&self) -> (r: Option<&BlobTransactionSidecar>)
        ensures
            r == (match self {
                BlobTransactionSidecarVariant::Eip4844(s) => Some(s),
                _ => None::<&BlobTransactionSidecar>,
            }),
    {
        match self {
            BlobTransactionSidecarVariant::Eip4844(s) => Some(s),
            _ => None,
        }
    }

    /// The EIP-7594 sidecar, if the sidecar is of that kind.
    pub fn as_eip7594(&self) -> (r: Option<&BlobTransactionSidecarEip7594>)
        ensures
            r == (match self {
                BlobTransactionSidecarVariant::Eip7594(s) => Some(s),
                _ => None::<&BlobTransactionSidecarEip7594>,
            }),
    {
        match self {
            BlobTransactionSidecarVariant::Eip7594(s) => Some(s),
            _ => None,
        }
    }

    /// The versioned hashes of the sidecar's blobs, one per commitment, in order.
    pub fn versioned_hashes(&self) -> (r: Vec<B256>)
        ensures
            r@.len() == self.spec_commitments().len(),
            forall|i: int|
                0 <= i < r@.len() ==> (#[trigger] r@[i])@ == versioned_hash_spec(
                    self.spec_commitments()[i]@,
                ),
    {
        let commitments = match self {
            BlobTransactionSidecarVariant::Eip4844(s) => &s.commitments,
            BlobTransactionSidecarVariant::Eip7594(s) => &s.commitments,
        };
        let mut out: Vec<B256> = Vec::new();
        let mut i: usize = 0;
        while i < commitments.len()
            invariant
                commitments@ == self.spec_commitments(),
                i <= commitments@.len(),
                out@.len() == i,
                forall|k: int|
                    0 <= k < i ==> (#[trigger] out@[k])@ == versioned_hash_spec(commitments@[k]@),
            decreases commitments@.len() - i,
        {
            out.push(kzg_to_versioned_hash(&commitments[i]));
            i = i + 1;
        }
        out
    }
}

/// Transaction input data, under either of its two JSON names.
pub struct TransactionInput {
    pub input: Option<Vec<u8>>,
    pub data: Option<Vec<u8>>,
}

impl TransactionInput {
    /// The input data: `input` if present, else `data`.
    pub fn input(&self) -> (r: Option<&Vec<u8>>)
        ensures
            r == (if self.input is Some {
                opt_ref(&self.input)
            } else {
                opt_ref(&self.data)
            }),
    {
        match &self.input {
            Some(i) => Some(i),
            None => self.data.as_ref(),
        }
    }
}

/// An Ethereum transaction request.
pub struct TransactionRequest {
    pub from: Option<Address>,
    pub to: Option<TxKind>,
    pub gas_price: Option<u128>,
    pub max_fee_per_gas: Option<u128>,
    pub max_priority_fee_per_gas: Option<u128>,
    pub max_fee_per_blob_gas: Option<u128>,
    pub gas: Option<u64>,
    pub value: Option<U256>,
    pub input: TransactionInput,
    pub nonce: Option<u64>,
    pub chain_id: Option<u64>,
    pub access_list: Option<AccessList>,
    pub transaction_type: Option<u8>,
    pub blob_versioned_hashes: Option<Vec<B256>>,
    pub sidecar: Option<BlobTransactionSidecarVariant>,
    pub authorization_list: Option<Vec<SignedAuthorization>>,
}

/// `hashes` are the versioned hashes of `sidecar`'s commitments, in order.
pub open spec fn hashes_of_sidecar(hashes: Seq<B256>, sidecar: BlobTransactionSidecarVariant) -> bool {
    &&& hashes.len() == sidecar.spec_commitments().len()
    &&& forall|i: int|
        0 <= i < hashes.len() ==> (#[trigger] hashes[i])@ == versioned_hash_spec(
            sidecar.spec_commitments()[i]@,
        )
}

/// Versioned hashes follow the sidecar's own commitments: for either kind of sidecar,
/// there is one hash per commitment of its `commitments` list, and hash `i` is the
/// versioned hash of commitment `i`.
pub proof fn lemma_sidecar_hashes_follow_commitments(
    hashes: Seq<B256>,
    sidecar: BlobTransactionSidecarVariant,
)
    requires
        hashes_of_sidecar(hashes, sidecar),
    ensures
        match sidecar {
            BlobTransactionSidecarVariant::Eip4844(s) => {
                &&& hashes.len() == s.commitments@.len()
                &&& forall|i: int|
                    0 <= i < hashes.len() ==> (#[trigger] hashes[i])@ == versioned_hash_spec(
                        s.commitments@[i]@,
                    )
            },
            BlobTransactionSidecarVariant::Eip7594(s) => {
                &&& hashes.len() == s.commitments@.len()
                &&& forall|i: int|
                    0 <= i < hashes.len() ==> (#[trigger] hashes[i])@ == versioned_hash_spec(
                        s.commitments@[i]@,
                    )
            },
        },
{
}

/// The kind of a sidecar does not bear on its versioned hashes: an EIP-4844 and an
/// EIP-7594 sidecar with the same commitments have the same hashes.
pub proof fn lemma_sidecar_hashes_same_for_both_kinds(
    hashes_4844: Seq<B256>,
    sidecar_4844: BlobTransactionSidecar,
    hashes_7594: Seq<B256>,
    sidecar_7594: BlobTransactionSidecarEip7594,
)
    requires
        sidecar_4844.commitments@ == sidecar_7594.commitments@,
        hashes_of_sidecar(hashes_4844, BlobTransactionSidecarVariant::Eip4844(sidecar_4844)),
        hashes_of_sidecar(hashes_7594, BlobTransactionSidecarVariant::Eip7594(sidecar_7594)),
    ensures
        hashes_4844.len() == hashes_7594.len(),
        forall|i: int| 0 <= i < hashes_4844.len() ==> (#[trigger] hashes_4844[i])@ == hashes_7594[i]@,
{
    lemma_sidecar_hashes_follow_commitments(
        hashes_4844,
        BlobTransactionSidecarVariant::Eip4844(sidecar_4844),
    );
    lemma_sidecar_hashes_follow_commitments(
        hashes_7594,
        BlobTransactionSidecarVariant::Eip7594(sidecar_7594),
    );
}

impl Default for TransactionRequest {
    /// A request with no field set.
    fn default() -> (r: Self)
        ensures
            r.from is None && r.to is None && r.gas_price is None && r.max_fee_per_gas is None
                && r.max_priority_fee_per_gas is None && r.max_fee_per_blob_gas is None
                && r.gas is None && r.value is None && r.input.input is None
                && r.input.data is None && r.nonce is None && r.chain_id is None
                && r.access_list is None && r.transaction_type is None
                && r.blob_versioned_hashes is None && r.sidecar is None
                && r.authorization_list is None,
    {
        TransactionRequest {
            from: None,
            to: None,
            gas_price: None,
            max_fee_per_gas: None,
            max_priority_fee_per_gas: None,
            max_fee_per_blob_gas: None,
            gas: None,
            value: None,
            input: TransactionInput { input: None, data: None },
            nonce: None,
            chain_id: None,
            access_list: None,
            transaction_type: None,
            blob_versioned_hashes: None,
            sidecar: None,
            authorization_list: None,
        }
    }
}

impl TransactionRequest {
    /// Sets the blob versioned hashes from the sidecar's commitments, when there is a
    /// sidecar; otherwise leaves the request as it is.
    pub fn populate_blob_hashes(&mut self)
        ensures
            final(self).from == old(self).from,
            final(self).to == old(self).to,
            final(self).gas_price == old(self).gas_price,
            final(self).max_fee_per_gas == old(self).max_fee_per_gas,
            final(self).max_priority_fee_per_gas == old(self).max_priority_fee_per_gas,
            final(self).max_fee_per_blob_gas == old(self).max_fee_per_blob_gas,
            final(self).gas == old(self).gas,
            final(self).value == old(self).value,
            final(self).input == old(self).input,
            final(self).nonce == old(self).nonce,
            final(self).chain_id == old(self).chain_id,
            final(self).access_list == old(self).access_list,
            final(self).transaction_type == old(self).transaction_type,
            final(self).sidecar == old(self).sidecar,
            final(self).authorization_list == old(self).authorization_list,
            match old(self).sidecar {
                Some(s) => final(self).blob_versioned_hashes matches Some(h) && hashes_of_sidecar(h@, s),
                None => final(self).blob_versioned_hashes == old(self).blob_versioned_hashes,
            },
    {
        let hashes = match &self.sidecar {
            Some(sidecar) => Some(sidecar.versioned_hashes()),
            None => None,
        };
        if hashes.is_some() {
            self.blob_versioned_hashes = hashes;
        }
    }
}

/// A value together with the JSON fields that its type does not know.
pub struct WithOtherFields<T> {
    pub inner: T,
    /// The other fields, as name and JSON text.
    pub other: Vec<(String, String)>,
}

impl<T> WithOtherFields<T> {
    /// Wraps a value, with no other fields.
    pub fn new(inner: T) -> (r: Self)
        ensures
            r.inner == inner,
            r.other@.len() == 0,
    {
        WithOtherFields { inner, other: Vec::new() }
    }
}

/// A Tempo transaction request: an Ethereum request with a fee token, a 2D nonce key and
/// its own authorization list.
pub struct TempoTransactionRequest {
    pub inner: TransactionRequest,
    pub fee_token: Option<Address>,
    pub nonce_key: Option<U256>,
    pub authorization_list: Option<Vec<SignedAuthorization>>,
}

} // verus!

verus! {

/// Access to the fields of a transaction request, over all networks Foundry supports:
/// the base fields (sender, target, nonce, gas, fees, ...) and the extensions for
/// EIP-4844 blobs, EIP-7702 authorization lists and Tempo transactions.
///
/// By default, getters give nothing and setters leave the request unchanged: each
/// request type overrides the fields it has.
pub trait FoundryTxRequest {
    /// The sender address.
    fn ftx_from(&self) -> (r: Option<Address>)
        default_ensures
            r is None,
    {
        None
    }

    /// The transaction kind (call target or creation).
    fn ftx_kind(&self) -> (r: Option<TxKind>)
        default_ensures
            r is None,
    {
        None
    }

    /// The nonce.
    fn ftx_nonce(&self) -> (r: Option<u64>)
        default_ensures
            r is None,
    {
        None
    }

    /// The value transferred.
    fn ftx_value(&self) -> (r: Option<U256>)
        default_ensures
            r is None,
    {
        None
    }

    /// The input data.
    fn ftx_input(&self) -> (r: Option<&Vec<u8>>)
        default_ensures
            r is None,
    {
        None
    }

    /// The gas limit.
    fn ftx_gas_limit(&self) -> (r: Option<u64>)
        default_ensures
            r is None,
    {
        None
    }

    /// The chain ID.
    fn ftx_chain_id(&self) -> (r: Option<u64>)
        default_ensures
            r is None,
    {
        None
    }

    /// The gas price (legacy and EIP-2930).
    fn ftx_gas_price(&self) -> (r: Option<u128>)
        default_ensures
            r is None,
    {
        None
    }

    /// The max fee per gas (EIP-1559).
    fn ftx_max_fee_per_gas(&self) -> (r: Option<u128>)
        default_ensures
            r is None,
    {
        None
    }

    /// The max priority fee per gas (EIP-1559).
    fn ftx_max_priority_fee_per_gas(&self) -> (r: Option<u128>)
        default_ensures
            r is None,
    {
        None
    }

    /// The access list.
    fn ftx_access_list(&self) -> (r: Option<&AccessList>)
        default_ensures
            r is None,
    {
        None
    }

    /// The transaction type.
    fn ftx_transaction_type(&self) -> (r: Option<u8>)
        default_ensures
            r is None,
    {
        None
    }

    /// The max fee per blob gas.
    fn max_fee_per_blob_gas(&self) -> (r: Option<u128>)
        default_ensures
            r is None,
    {
        None
    }

    /// Sets the max fee per blob gas.
    fn set_max_fee_per_blob_gas(&mut self, max_fee_per_blob_gas: u128)
        default_ensures
            same_ref(&*final(self), &*old(self)),
    {
    }

    /// The EIP-4844 blob versioned hashes.
    fn blob_versioned_hashes(&self) -> (r: Option<&[B256]>)
        default_ensures
            r is None,
    {
        None
    }

    /// Sets the EIP-4844 blob versioned hashes.
    fn set_blob_versioned_hashes(&mut self, hashes: Vec<B256>)
        default_ensures
            same_ref(&*final(self), &*old(self)),
    {
    }

    /// The blob sidecar, of either kind.
    fn blob_sidecar(&self) -> (r: Option<&BlobTransactionSidecarVariant>)
        default_ensures
            r is None,
    {
        None
    }

    /// Sets the blob sidecar.
    fn set_blob_sidecar(&mut self, sidecar: BlobTransactionSidecarVariant)
        default_ensures
            same_ref(&*final(self), &*old(self)),
    {
    }

    /// The blob sidecar, if it is of the EIP-4844 kind.
    fn blob_sidecar_4844(&self) -> (r: Option<&BlobTransactionSidecar>)
        default_ensures
            exists|s: Option<&BlobTransactionSidecarVariant>|
                call_ensures(Self::blob_sidecar, (self,), s) && r == (match s {
                    Some(BlobTransactionSidecarVariant::Eip4844(x)) => Some(x),
                    _ => None::<&BlobTransactionSidecar>,
                }),
    {
        match self.blob_sidecar() {
            Some(s) => s.as_eip4844(),
            None => None,
        }
    }

    /// Sets an EIP-4844 blob sidecar: the request becomes what `set_blob_sidecar` makes of
    /// it with the sidecar as the EIP-4844 variant.
    fn set_blob_sidecar_4844(&mut self, sidecar: BlobTransactionSidecar) where Self: Sized
        default_ensures
            exists|m: &mut Self|
                call_ensures(
                    Self::set_blob_sidecar,
                    (m, BlobTransactionSidecarVariant::Eip4844(sidecar)),
                    (),
                ) && *m == *old(self) && *final(m) == *final(self),
    {
        self.set_blob_sidecar(BlobTransactionSidecarVariant::Eip4844(sidecar));
    }

    /// The blob sidecar, if it is of the EIP-7594 kind.
    fn blob_sidecar_7594(&self) -> (r: Option<&BlobTransactionSidecarEip7594>)
        default_ensures
            exists|s: Option<&BlobTransactionSidecarVariant>|
                call_ensures(Self::blob_sidecar, (self,), s) && r == (match s {
                    Some(BlobTransactionSidecarVariant::Eip7594(x)) => Some(x),
                    _ => None::<&BlobTransactionSidecarEip7594>,
                }),
    {
        match self.blob_sidecar() {
            Some(s) => s.as_eip7594(),
            None => None,
        }
    }

    /// Sets an EIP-7594 blob sidecar: the request becomes what `set_blob_sidecar` makes of
    /// it with the sidecar as the EIP-7594 variant.
    fn set_blob_sidecar_7594(&mut self, sidecar: BlobTransactionSidecarEip7594) where Self: Sized
        default_ensures
            exists|m: &mut Self|
                call_ensures(
                    Self::set_blob_sidecar,
                    (m, BlobTransactionSidecarVariant::Eip7594(sidecar)),
                    (),
                ) && *m == *old(self) && *final(m) == *final(self),
    {
        self.set_blob_sidecar(BlobTransactionSidecarVariant::Eip7594(sidecar));
    }

    /// The EIP-7702 authorization list.
    fn authorization_list(&self) -> (r: Option<&Vec<SignedAuthorization>>)
        default_ensures
            r is None,
    {
        None
    }

    /// Sets the EIP-7702 authorization list.
    fn set_authorization_list(&mut self, authorization_list: Vec<SignedAuthorization>)
        default_ensures
            same_ref(&*final(self), &*old(self)),
    {
    }

    /// The fee token of a Tempo transaction.
    fn fee_token(&self) -> (r: Option<Address>)
        default_ensures
            r is None,
    {
        None
    }

    /// Sets the fee token of a Tempo transaction.
    fn set_fee_token(&mut self, fee_token: Address)
        default_ensures
            same_ref(&*final(self), &*old(self)),
    {
    }

    /// The 2D nonce key of a Tempo transaction.
    fn nonce_key(&self) -> (r: Option<U256>)
        default_ensures
            r is None,
    {
        None
    }

    /// Sets the 2D nonce key of a Tempo transaction.
    fn set_nonce_key(&mut self, nonce_key: U256)
        default_ensures
            same_ref(&*final(self), &*old(self)),
    {
    }
}

/// Builder-style setters over [`FoundryTxRequest`]: each returns what the matching setter
/// makes of the request.
pub trait FoundryTransactionBuilder: FoundryTxRequest + Sized {
    /// Sets the max fee per blob gas.
    fn with_max_fee_per_blob_gas(self, max_fee_per_blob_gas: u128) -> (r: Self)
        default_ensures
            exists|m: &mut Self|
                call_ensures(Self::set_max_fee_per_blob_gas, (m, max_fee_per_blob_gas), ()) && *m == self && *final(m) == r,
    {
        let mut request = self;
        request.set_max_fee_per_blob_gas(max_fee_per_blob_gas);
        request
    }

    /// Sets the EIP-4844 blob versioned hashes.
    fn with_blob_versioned_hashes(self, hashes: Vec<B256>) -> (r: Self)
        default_ensures
            exists|m: &mut Self|
                call_ensures(Self::set_blob_versioned_hashes, (m, hashes), ()) && *m == self && *final(m) == r,
    {
        let mut request = self;
        request.set_blob_versioned_hashes(hashes);
        request
    }

    /// Sets the blob sidecar.
    fn with_blob_sidecar(self, sidecar: BlobTransactionSidecarVariant) -> (r: Self)
        default_ensures
            exists|m: &mut Self|
                call_ensures(Self::set_blob_sidecar, (m, sidecar), ()) && *m == self && *final(m) == r,
    {
        let mut request = self;
        request.set_blob_sidecar(sidecar);
        request
    }

    /// Sets an EIP-4844 blob sidecar.
    fn with_blob_sidecar_4844(self, sidecar: BlobTransactionSidecar) -> (r: Self)
        default_ensures
            exists|m: &mut Self|
                call_ensures(Self::set_blob_sidecar_4844, (m, sidecar), ()) && *m == self && *final(m) == r,
    {
        let mut request = self;
        request.set_blob_sidecar_4844(sidecar);
        request
    }

    /// Sets an EIP-7594 blob sidecar.
    fn with_blob_sidecar_7594(self, sidecar: BlobTransactionSidecarEip7594) -> (r: Self)
        default_ensures
            exists|m: &mut Self|
                call_ensures(Self::set_blob_sidecar_7594, (m, sidecar), ()) && *m == self && *final(m) == r,
    {
        let mut request = self;
        request.set_blob_sidecar_7594(sidecar);
        request
    }

    /// Sets the EIP-7702 authorization list.
    fn with_authorization_list(self, authorization_list: Vec<SignedAuthorization>) -> (r: Self)
        default_ensures
            exists|m: &mut Self|
                call_ensures(Self::set_authorization_list, (m, authorization_list), ()) && *m == self && *final(m) == r,
    {
        let mut request = self;
        request.set_authorization_list(authorization_list);
        request
    }

    /// Sets the Tempo fee token.
    fn with_fee_token(self, fee_token: Address) -> (r: Self)
        default_ensures
            exists|m: &mut Self|
                call_ensures(Self::set_fee_token, (m, fee_token), ()) && *m == self && *final(m) == r,
    {
        let mut request = self;
        request.set_fee_token(fee_token);
        request
    }

    /// Sets the Tempo 2D nonce key.
    fn with_nonce_key(self, nonce_key: U256) -> (r: Self)
        default_ensures
            exists|m: &mut Self|
                call_ensures(Self::set_nonce_key, (m, nonce_key), ()) && *m == self && *final(m) == r,
    {
        let mut request = self;
        request.set_nonce_key(nonce_key);
        request
    }
}

} // verus!

verus! {

impl TransactionRequest {
    /// The base fields of `self` and `other` agree.
    pub open spec fn same_base_fields(&self, other: &Self) -> bool {
        &&& self.from == other.from
        &&& self.to == other.to
        &&& self.gas_price == other.gas_price
        &&& self.max_fee_per_gas == other.max_fee_per_gas
        &&& self.max_priority_fee_per_gas == other.max_priority_fee_per_gas
        &&& self.gas == other.gas
        &&& self.value == other.value
        &&& self.input == other.input
        &&& self.nonce == other.nonce
        &&& self.chain_id == other.chain_id
        &&& self.access_list == other.access_list
        &&& self.transaction_type == other.transaction_type
    }
}

impl FoundryTxRequest for TransactionRequest {
    fn ftx_from(&self) -> (r: Option<Address>)
        ensures
            r == self.from,
    {
        self.from
    }

    fn ftx_kind(&self) -> (r: Option<TxKind>)
        ensures
            r == self.to,
    {
        self.to
    }

    fn ftx_nonce(&self) -> (r: Option<u64>)
        ensures
            r == self.nonce,
    {
        self.nonce
    }

    fn ftx_value(&self) -> (r: Option<U256>)
        ensures
            r == self.value,
    {
        self.value
    }

    fn ftx_input(&self) -> (r: Option<&Vec<u8>>)
        ensures
            r == (if self.input.input is Some {
                opt_ref(&self.input.input)
            } else {
                opt_ref(&self.input.data)
            }),
    {
        self.input.input()
    }

    fn ftx_gas_limit(&self) -> (r: Option<u64>)
        ensures
            r == self.gas,
    {
        self.gas
    }

    fn ftx_chain_id(&self) -> (r: Option<u64>)
        ensures
            r == self.chain_id,
    {
        self.chain_id
    }

    fn ftx_gas_price(&self) -> (r: Option<u128>)
        ensures
            r == self.gas_price,
    {
        self.gas_price
    }

    fn ftx_max_fee_per_gas(&self) -> (r: Option<u128>)
        ensures
            r == self.max_fee_per_gas,
    {
        self.max_fee_per_gas
    }

    fn ftx_max_priority_fee_per_gas(&self) -> (r: Option<u128>)
        ensures
            r == self.max_priority_fee_per_gas,
    {
        self.max_priority_fee_per_gas
    }

    fn ftx_access_list(&self) -> (r: Option<&AccessList>)
        ensures
            r == opt_ref(&self.access_list),
    {
        self.access_list.as_ref()
    }

    fn ftx_transaction_type(&self) -> (r: Option<u8>)
        ensures
            r == self.transaction_type,
    {
        self.transaction_type
    }

    fn max_fee_per_blob_gas(&self) -> (r: Option<u128>)
        ensures
            r == self.max_fee_per_blob_gas,
    {
        self.max_fee_per_blob_gas
    }

    fn set_max_fee_per_blob_gas(&mut self, max_fee_per_blob_gas: u128)
        ensures
            final(self).same_base_fields(&*old(self)),
            final(self).max_fee_per_blob_gas == Some(max_fee_per_blob_gas),
            final(self).blob_versioned_hashes == old(self).blob_versioned_hashes,
            final(self).sidecar == old(self).sidecar,
            final(self).authorization_list == old(self).authorization_list,
    {
        self.max_fee_per_blob_gas = Some(max_fee_per_blob_gas);
    }

    fn blob_versioned_hashes(&self) -> (r: Option<&[B256]>)
        ensures
            r is Some <==> self.blob_versioned_hashes is Some,
            r matches Some(h) ==> h@ == self.blob_versioned_hashes.unwrap()@,
    {
        match &self.blob_versioned_hashes {
            Some(h) => Some(h.as_slice()),
            None => None,
        }
    }

    fn set_blob_versioned_hashes(&mut self, hashes: Vec<B256>)
        ensures
            final(self).same_base_fields(&*old(self)),
            final(self).max_fee_per_blob_gas == old(self).max_fee_per_blob_gas,
            final(self).blob_versioned_hashes == Some(hashes),
            final(self).sidecar == old(self).sidecar,
            final(self).authorization_list == old(self).authorization_list,
    {
        self.blob_versioned_hashes = Some(hashes);
    }

    fn blob_sidecar(&self) -> (r: Option<&BlobTransactionSidecarVariant>)
        ensures
            r == opt_ref(&self.sidecar),
    {
        self.sidecar.as_ref()
    }

    /// Sets the blob sidecar, and the versioned hashes to those of its commitments.
    fn set_blob_sidecar(&mut self, sidecar: BlobTransactionSidecarVariant)
        ensures
            final(self).same_base_fields(&*old(self)),
            final(self).max_fee_per_blob_gas == old(self).max_fee_per_blob_gas,
            final(self).sidecar == Some(sidecar),
            final(self).blob_versioned_hashes matches Some(h) && hashes_of_sidecar(h@, sidecar),
            final(self).authorization_list == old(self).authorization_list,
    {
        self.sidecar = Some(sidecar);
        self.populate_blob_hashes();
    }

    fn authorization_list(&self) -> (r: Option<&Vec<SignedAuthorization>>)
        ensures
            r == opt_ref(&self.authorization_list),
    {
        self.authorization_list.as_ref()
    }

    fn set_authorization_list(&mut self, authorization_list: Vec<SignedAuthorization>)
        ensures
            final(self).same_base_fields(&*old(self)),
            final(self).max_fee_per_blob_gas == old(self).max_fee_per_blob_gas,
            final(self).blob_versioned_hashes == old(self).blob_versioned_hashes,
            final(self).sidecar == old(self).sidecar,
            final(self).authorization_list == Some(authorization_list),
    {
        self.authorization_list = Some(authorization_list);
    }
}

impl FoundryTransactionBuilder for TransactionRequest {
}

impl FoundryTxRequest for WithOtherFields<TransactionRequest> {
    fn ftx_from(&self) -> (r: Option<Address>)
        ensures
            r == self.inner.from,
    {
        self.inner.from
    }

    fn ftx_kind(&self) -> (r: Option<TxKind>)
        ensures
            r == self.inner.to,
    {
        self.inner.to
    }

    fn ftx_nonce(&self) -> (r: Option<u64>)
        ensures
            r == self.inner.nonce,
    {
        self.inner.nonce
    }

    fn ftx_value(&self) -> (r: Option<U256>)
        ensures
            r == self.inner.value,
    {
        self.inner.value
    }

    fn ftx_input(&self) -> (r: Option<&Vec<u8>>)
        ensures
            r == (if self.inner.input.input is Some {
                opt_ref(&self.inner.input.input)
            } else {
                opt_ref(&self.inner.input.data)
            }),
    {
        self.inner.input.input()
    }

    fn ftx_gas_limit(&self) -> (r: Option<u64>)
        ensures
            r == self.inner.gas,
    {
        self.inner.gas
    }

    fn ftx_chain_id(&self) -> (r: Option<u64>)
        ensures
            r == self.inner.chain_id,
    {
        self.inner.chain_id
    }

    fn ftx_gas_price(&self) -> (r: Option<u128>)
        ensures
            r == self.inner.gas_price,
    {
        self.inner.gas_price
    }

    fn ftx_max_fee_per_gas(&self) -> (r: Option<u128>)
        ensures
            r == self.inner.max_fee_per_gas,
    {
        self.inner.max_fee_per_gas
    }

    fn ftx_max_priority_fee_per_gas(&self) -> (r: Option<u128>)
        ensures
            r == self.inner.max_priority_fee_per_gas,
    {
        self.inner.max_priority_fee_per_gas
    }

    fn ftx_access_list(&self) -> (r: Option<&AccessList>)
        ensures
            r == opt_ref(&self.inner.access_list),
    {
        self.inner.access_list.as_ref()
    }

    fn ftx_transaction_type(&self) -> (r: Option<u8>)
        ensures
            r == self.inner.transaction_type,
    {
        self.inner.transaction_type
    }

    fn max_fee_per_blob_gas(&self) -> (r: Option<u128>)
        ensures
            r == self.inner.max_fee_per_blob_gas,
    {
        self.inner.max_fee_per_blob_gas
    }

    fn set_max_fee_per_blob_gas(&mut self, max_fee_per_blob_gas: u128)
        ensures
            final(self).inner.same_base_fields(&old(self).inner),
            final(self).other == old(self).other,
            final(self).inner.max_fee_per_blob_gas == Some(max_fee_per_blob_gas),
            final(self).inner.blob_versioned_hashes == old(self).inner.blob_versioned_hashes,
            final(self).inner.sidecar == old(self).inner.sidecar,
            final(self).inner.authorization_list == old(self).inner.authorization_list,
    {
        self.inner.max_fee_per_blob_gas = Some(max_fee_per_blob_gas);
    }

    fn blob_versioned_hashes(&self) -> (r: Option<&[B256]>)
        ensures
            r is Some <==> self.inner.blob_versioned_hashes is Some,
            r matches Some(h) ==> h@ == self.inner.blob_versioned_hashes.unwrap()@,
    {
        match &self.inner.blob_versioned_hashes {
            Some(h) => Some(h.as_slice()),
            None => None,
        }
    }

    fn set_blob_versioned_hashes(&mut self, hashes: Vec<B256>)
        ensures
            final(self).inner.same_base_fields(&old(self).inner),
            final(self).other == old(self).other,
            final(self).inner.max_fee_per_blob_gas == old(self).inner.max_fee_per_blob_gas,
            final(self).inner.blob_versioned_hashes == Some(hashes),
            final(self).inner.sidecar == old(self).inner.sidecar,
            final(self).inner.authorization_list == old(self).inner.authorization_list,
    {
        self.inner.blob_versioned_hashes = Some(hashes);
    }

    fn blob_sidecar(&self) -> (r: Option<&BlobTransactionSidecarVariant>)
        ensures
            r == opt_ref(&self.inner.sidecar),
    {
        self.inner.sidecar.as_ref()
    }

    /// Sets the blob sidecar, and the versioned hashes to those of its commitments.
    fn set_blob_sidecar(&mut self, sidecar: BlobTransactionSidecarVariant)
        ensures
            final(self).inner.same_base_fields(&old(self).inner),
            final(self).other == old(self).other,
            final(self).inner.max_fee_per_blob_gas == old(self).inner.max_fee_per_blob_gas,
            final(self).inner.sidecar == Some(sidecar),
            final(self).inner.blob_versioned_hashes matches Some(h) && hashes_of_sidecar(h@, sidecar),
            final(self).inner.authorization_list == old(self).inner.authorization_list,
    {
        self.inner.sidecar = Some(sidecar);
        self.inner.populate_blob_hashes();
    }

    fn authorization_list(&self) -> (r: Option<&Vec<SignedAuthorization>>)
        ensures
            r == opt_ref(&self.inner.authorization_list),
    {
        self.inner.authorization_list.as_ref()
    }

    fn set_authorization_list(&mut self, authorization_list: Vec<SignedAuthorization>)
        ensures
            final(self).inner.same_base_fields(&old(self).inner),
            final(self).other == old(self).other,
            final(self).inner.max_fee_per_blob_gas == old(self).inner.max_fee_per_blob_gas,
            final(self).inner.blob_versioned_hashes == old(self).inner.blob_versioned_hashes,
            final(self).inner.sidecar == old(self).inner.sidecar,
            final(self).inner.authorization_list == Some(authorization_list),
    {
        self.inner.authorization_list = Some(authorization_list);
    }
}

impl FoundryTransactionBuilder for WithOtherFields<TransactionRequest> {
}

impl FoundryTxRequest for TempoTransactionRequest {
    fn ftx_from(&self) -> (r: Option<Address>)
        ensures
            r == self.inner.from,
    {
        self.inner.from
    }

    fn ftx_kind(&self) -> (r: Option<TxKind>)
        ensures
            r == self.inner.to,
    {
        self.inner.to
    }

    fn ftx_nonce(&self) -> (r: Option<u64>)
        ensures
            r == self.inner.nonce,
    {
        self.inner.nonce
    }

    fn ftx_value(&self) -> (r: Option<U256>)
        ensures
            r == self.inner.value,
    {
        self.inner.value
    }

    fn ftx_input(&self) -> (r: Option<&Vec<u8>>)
        ensures
            r == (if self.inner.input.input is Some {
                opt_ref(&self.inner.input.input)
            } else {
                opt_ref(&self.inner.input.data)
            }),
    {
        self.inner.input.input()
    }

    fn ftx_gas_limit(&self) -> (r: Option<u64>)
        ensures
            r == self.inner.gas,
    {
        self.inner.gas
    }

    fn ftx_chain_id(&self) -> (r: Option<u64>)
        ensures
            r == self.inner.chain_id,
    {
        self.inner.chain_id
    }

    fn ftx_gas_price(&self) -> (r: Option<u128>)
        ensures
            r == self.inner.gas_price,
    {
        self.inner.gas_price
    }

    fn ftx_max_fee_per_gas(&self) -> (r: Option<u128>)
        ensures
            r == self.inner.max_fee_per_gas,
    {
        self.inner.max_fee_per_gas
    }

    fn ftx_max_priority_fee_per_gas(&self) -> (r: Option<u128>)
        ensures
            r == self.inner.max_priority_fee_per_gas,
    {
        self.inner.max_priority_fee_per_gas
    }

    fn ftx_access_list(&self) -> (r: Option<&AccessList>)
        ensures
            r == opt_ref(&self.inner.access_list),
    {
        self.inner.access_list.as_ref()
    }

    fn ftx_transaction_type(&self) -> (r: Option<u8>)
        ensures
            r == self.inner.transaction_type,
    {
        self.inner.transaction_type
    }

    fn authorization_list(&self) -> (r: Option<&Vec<SignedAuthorization>>)
        ensures
            r == opt_ref(&self.authorization_list),
    {
        self.authorization_list.as_ref()
    }

    fn set_authorization_list(&mut self, authorization_list: Vec<SignedAuthorization>)
        ensures
            final(self).inner == old(self).inner,
            final(self).fee_token == old(self).fee_token,
            final(self).nonce_key == old(self).nonce_key,
            final(self).authorization_list == Some(authorization_list),
    {
        self.authorization_list = Some(authorization_list);
    }

    fn fee_token(&self) -> (r: Option<Address>)
        ensures
            r == self.fee_token,
    {
        self.fee_token
    }

    fn set_fee_token(&mut self, fee_token: Address)
        ensures
            final(self).inner == old(self).inner,
            final(self).fee_token == Some(fee_token),
            final(self).nonce_key == old(self).nonce_key,
            final(self).authorization_list == old(self).authorization_list,
    {
        self.fee_token = Some(fee_token);
    }

    fn nonce_key(&self) -> (r: Option<U256>)
        ensures
            r == self.nonce_key,
    {
        self.nonce_key
    }

    fn set_nonce_key(&mut self, nonce_key: U256)
        ensures
            final(self).inner == old(self).inner,
            final(self).fee_token == old(self).fee_token,
            final(self).nonce_key == Some(nonce_key),
            final(self).authorization_list == old(self).authorization_list,
    {
        self.nonce_key = Some(nonce_key);
    }
}

impl FoundryTransactionBuilder for TempoTransactionRequest {
}

} // verus!
