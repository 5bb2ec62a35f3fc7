//! Genesis: the zeroth block and the initial balances, written once.
use vstd::prelude::*;
use crate::block::{Block, BlockHeader, header_bytes, merkle_root};
use crate::crypto::{double_sha256_of, zero_digest, zero_hash};
use crate::encoding::u64_le;
use crate::state::{StateDB, overlay};
use crate::transaction::{Address, Transaction};

verus! {

/// The supply that the treasury holds by default: one billion coins of
/// nine decimals.
pub const DEFAULT_INITIAL_SUPPLY: u64 = 1_000_000_000_000_000_000;

/// What genesis needs: who holds the supply, how much, and when.
#[derive(Debug, Clone, Copy, PartialEq, Eq)]
pub struct GenesisConfig {
    pub treasury_address: Address,
    pub initial_supply: u64,
    pub timestamp: u64,
}

impl GenesisConfig {
    /// The default configuration at `timestamp`: a zero treasury address
    /// and the default supply.
    pub fn default_at(timestamp: u64) -> (r: GenesisConfig)
        ensures
            r.treasury_address@ == zero_hash(),
            r.initial_supply == DEFAULT_INITIAL_SUPPLY,
            r.timestamp == timestamp,
    {
        GenesisConfig {
            treasury_address: zero_digest(),
            initial_supply: DEFAULT_INITIAL_SUPPLY,
            timestamp,
        }
    }
}

/// The hash of the genesis block of `c`: index 0, a zero previous hash,
/// and the zero root of no transactions.
pub open spec fn genesis_hash(c: GenesisConfig) -> Seq<u8> {
    double_sha256_of(u64_le(0) + u64_le(c.timestamp) + zero_hash() + zero_hash())
}

/// The genesis block: index 0, a zero previous hash, no transactions.
pub fn create_genesis_block(config: GenesisConfig) -> (r: Block)
    ensures
        r.header.index == 0,
        r.header.timestamp == config.timestamp,
        r.header.previous_hash@ == zero_hash(),
        r.header.merkle_root@ == zero_hash(),
        r.transactions@.len() == 0,
        header_bytes(r.header) == u64_le(0) + u64_le(config.timestamp) + zero_hash() + zero_hash(),
{
    let header = BlockHeader::new(0, config.timestamp, zero_digest());
    let txs: Vec<Transaction> = Vec::new();
    let b = Block::new(header, txs);
    assert(b.transactions@ =~= Seq::<Transaction>::empty());
    assert(merkle_root(b.transactions@) == zero_hash());
    b
}

/// The balances that genesis writes: the supply to the treasury.
pub fn get_initial_balances(config: &GenesisConfig) -> (r: Vec<(Address, u64)>)
    ensures
        r@ == seq![(config.treasury_address, config.initial_supply)],
{
    let mut balances: Vec<(Address, u64)> = Vec::new();
    balances.push((config.treasury_address, config.initial_supply));
    assert(balances@ =~= seq![(config.treasury_address, config.initial_supply)]);
    balances
}

/// What a genesis run does to a store: nothing when the chain pointer is
/// already set; otherwise it points the chain at the genesis block, stores
/// that block, and credits the treasury with the supply.
pub open spec fn genesis_step(pre: StateDB, post: StateDB, c: GenesisConfig) -> bool {
    if pre.latest_of() is Some {
        post == pre
    } else {
        &&& post.latest_of() is Some
        &&& post.latest_of()->0@ == genesis_hash(c)
        &&& post.block_of(genesis_hash(c)) is Some
        &&& forall|h: Seq<u8>| h != genesis_hash(c) ==> #[trigger] post.block_of(h) == pre.block_of(h)
        &&& forall|a: Seq<u8>|
            #[trigger] post.balance_of(a) == if a == c.treasury_address@ {
                c.initial_supply
            } else {
                pre.balance_of(a)
            }
        &&& forall|a: Seq<u8>| #[trigger] post.nonce_of(a) == pre.nonce_of(a)
    }
}

/// Runs genesis unless the chain pointer is already set; returns whether
/// it ran.
pub fn run_genesis(store: &mut StateDB, config: &GenesisConfig) -> (r: bool)
    ensures
        r == (old(store).latest_of() is None),
        genesis_step(*old(store), *final(store), *config),
{
    if store.get_latest_block_hash().is_some() {
        return false;
    }
    let balances = get_initial_balances(config);
    let genesis = create_genesis_block(*config);
    let hash = genesis.hash();
    let block_data = genesis.to_bytes();
    store.store_block(&hash, block_data.as_slice());
    store.set_latest_block_hash(&hash);
    store.initialize_genesis(&balances);
    assert(hash@ == genesis_hash(*config));
    assert forall|a: Seq<u8>| #[trigger] store.balance_of(a) == if a == config.treasury_address@ {
        config.initial_supply
    } else {
        old(store).balance_of(a)
    } by {
        let base = old(store).balance_of(a);
        assert(balances@.drop_last() =~= Seq::<(Address, u64)>::empty());
        assert(overlay(balances@.drop_last(), a, base) == base);
        assert(overlay(balances@, a, base) == if a == config.treasury_address@ {
            config.initial_supply
        } else {
            base
        });
    }
    true
}

/// Genesis happens once: running it on the store that a first run left
/// changes nothing, neither the chain pointer nor any balance.
pub proof fn lemma_genesis_runs_once(s0: StateDB, s1: StateDB, s2: StateDB, c: GenesisConfig)
    requires
        genesis_step(s0, s1, c),
        genesis_step(s1, s2, c),
    ensures
        s2 == s1,
        s2.latest_of() == s1.latest_of(),
        forall|a: Seq<u8>| #[trigger] s2.balance_of(a) == s1.balance_of(a),
{
}

} // verus!
