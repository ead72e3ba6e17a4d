//! Plain-value representations of the Ethereum primitives that the executor reads.
use vstd::prelude::*;

verus! {

/// A 20-byte account address.
pub type Address = [u8; 20];

/// A 32-byte word (hashes, topics, big-endian 256-bit integers).
pub type B256 = [u8; 32];

/// A 256-bit unsigned integer, as 32 big-endian bytes.
pub type U256 = [u8; 32];

/// Byte-wise equality of two fixed-size byte arrays, as sequences.
pub fn bytes_eq<const N: usize>(a: &[u8; N], b: &[u8; N]) -> (r: bool)
    ensures
        r == (a@ == b@),
{
    let mut i: usize = 0;
    while i < N
        invariant
            i <= N,
            a@.len() == N,
            b@.len() == N,
            forall|j: int| 0 <= j < i ==> a@[j] == b@[j],
        decreases N - i,
    {
        if a[i] != b[i] {
            return false;
        }
        i = i + 1;
    }
    assert(a@ =~= b@);
    true
}

/// An event log: the emitting address, its indexed topics and its data.
pub struct LogEntry {
    pub address: Address,
    pub topics: Vec<B256>,
    pub data: Vec<u8>,
}

/// What a bloom filter reads of one log: the address and the topics, as byte sequences.
pub open spec fn bloom_input(log: LogEntry) -> (Seq<u8>, Seq<Seq<u8>>) {
    (log.address@, log.topics@.map_values(|t: B256| t@))
}

/// What a bloom filter reads of a list of logs.
pub open spec fn bloom_inputs(logs: Seq<LogEntry>) -> Seq<(Seq<u8>, Seq<Seq<u8>>)> {
    logs.map_values(|l: LogEntry| bloom_input(l))
}

/// The 2048-bit bloom filter that `alloy_primitives` computes over the addresses and
/// topics of a list of logs (three keccak-derived bits per address and per topic).
pub uninterp spec fn logs_bloom(inputs: Seq<(Seq<u8>, Seq<Seq<u8>>)>) -> Seq<u8>;

/// The empty bloom filter: 256 zero bytes.
pub open spec fn zero_bloom() -> Seq<u8> {
    Seq::new(256, |i: int| 0u8)
}

/// Account data of the post-transaction state that the receipt logic reads.
pub struct AccountState {
    pub address: Address,
    pub nonce: u64,
}

/// The accounts touched by a transaction, as the EVM reports them after execution.
pub struct EvmState {
    pub accounts: Vec<AccountState>,
}

/// The nonce of the first entry in `accounts` whose address is `address`, if any.
pub open spec fn nonce_in(accounts: Seq<AccountState>, address: Seq<u8>) -> Option<u64>
    decreases accounts.len(),
{
    if accounts.len() == 0 {
        None
    } else if accounts[0].address@ == address {
        Some(accounts[0].nonce)
    } else {
        nonce_in(accounts.drop_first(), address)
    }
}

/// `nonce_in` finds the first entry for `address`: if entry `i` is for `address` and no
/// entry before it is, the result is the nonce of entry `i`.
pub proof fn lemma_nonce_in_first(accounts: Seq<AccountState>, address: Seq<u8>, i: int)
    requires
        0 <= i < accounts.len(),
        accounts[i].address@ == address,
        forall|j: int| 0 <= j < i ==> accounts[j].address@ != address,
    ensures
        nonce_in(accounts, address) == Some(accounts[i].nonce),
    decreases i,
{
    if i > 0 {
        let rest = accounts.drop_first();
        assert forall|j: int| 0 <= j < i - 1 implies rest[j].address@ != address by {
            assert(rest[j] == accounts[j + 1]);
        }
        lemma_nonce_in_first(rest, address, i - 1);
    }
}

/// `nonce_in` finds nothing exactly when no entry is for `address`.
pub proof fn lemma_nonce_in_none(accounts: Seq<AccountState>, address: Seq<u8>)
    ensures
        nonce_in(accounts, address) is None <==> forall|j: int|
            0 <= j < accounts.len() ==> #[trigger] accounts[j].address@ != address,
    decreases accounts.len(),
{
    if accounts.len() > 0 {
        let rest = accounts.drop_first();
        lemma_nonce_in_none(rest, address);
        if accounts[0].address@ != address {
            assert forall|j: int| 0 <= j < rest.len() implies (#[trigger] rest[j]) == accounts[j + 1] by {}
            if forall|j: int| 0 <= j < rest.len() ==> #[trigger] rest[j].address@ != address {
                assert forall|j: int| 0 <= j < accounts.len() implies #[trigger] accounts[j].address@ != address by {
                    if j > 0 {
                        assert(rest[j - 1] == accounts[j]);
                    }
                }
            }
        }
    }
}

impl EvmState {
    /// No address occurs twice (the state is a map from address to account).
    pub open spec fn wf(&self) -> bool {
        forall|i: int, j: int|
            0 <= i < j < self.accounts@.len() ==> self.accounts@[i].address@
                != self.accounts@[j].address@
    }

    pub open spec fn nonce_of(&self, address: Seq<u8>) -> Option<u64> {
        nonce_in(self.accounts@, address)
    }

    /// In a well-formed state, the nonce lookup is the lookup of a map from address to
    /// account: it gives the nonce of the entry for `address` when there is one, and
    /// nothing exactly when no entry is for `address`.
    pub proof fn lemma_nonce_of_is_map_lookup(&self, address: Seq<u8>)
        requires
            self.wf(),
        ensures
            forall|i: int|
                0 <= i < self.accounts@.len() && #[trigger] self.accounts@[i].address@ == address
                    ==> self.nonce_of(address) == Some(self.accounts@[i].nonce),
            self.nonce_of(address) is None <==> forall|i: int|
                0 <= i < self.accounts@.len() ==> #[trigger] self.accounts@[i].address@ != address,
    {
        let accounts = self.accounts@;
        assert forall|i: int|
            0 <= i < accounts.len() && #[trigger] accounts[i].address@ == address
                implies self.nonce_of(address) == Some(accounts[i].nonce) by {
            assert forall|j: int| 0 <= j < i implies accounts[j].address@ != address by {
                assert(accounts[j].address@ != accounts[i].address@);
            }
            lemma_nonce_in_first(accounts, address, i);
        }
        lemma_nonce_in_none(accounts, address);
    }

    /// Looks up the nonce of `address` in the post-transaction state.
    pub fn get_nonce(&self, address: &Address) -> (r: Option<u64>)
        ensures
            r == self.nonce_of(address@),
    {
        let mut i: usize = 0;
        let n = self.accounts.len();
        assert(self.accounts@.skip(0) =~= self.accounts@);
        while i < n
            invariant
                n == self.accounts@.len(),
                i <= n,
                nonce_in(self.accounts@, address@) == nonce_in(self.accounts@.skip(i as int), address@),
            decreases n - i,
        {
            let acc = &self.accounts[i];
            proof {
                let s = self.accounts@.skip(i as int);
                assert(s[0] == self.accounts@[i as int]);
                assert(s.drop_first() =~= self.accounts@.skip(i + 1));
            }
            if bytes_eq(&acc.address, address) {
                return Some(acc.nonce);
            }
            i = i + 1;
        }
        proof {
            assert(self.accounts@.skip(n as int).len() == 0);
        }
        None
    }
}

} // verus!
