//! The ledger store: balances, nonces, stored blocks and the pointer to the
//! latest block, each in a namespace of its own.
//!
//! Every namespace is an append-only log of writes in which the last write
//! of a key wins, so each write is one push and nothing is ever lost from
//! the history of a key.  Each call stands alone: a caller that makes
//! several writes (a debit, a credit, a nonce step) gets no atomic group
//! from the store, and checks every condition before the first write.
use vstd::prelude::*;
use crate::crypto::hash_eq;

verus! {

/// The value of `key` after the writes in `log`, on top of `base`.
pub open spec fn overlay(log: Seq<([u8; 32], u64)>, key: Seq<u8>, base: u64) -> u64
    decreases log.len(),
{
    if log.len() == 0 {
        base
    } else if log.last().0@ == key {
        log.last().1
    } else {
        overlay(log.drop_last(), key, base)
    }
}

/// The last bytes stored under `key` in `log`, if any.
pub open spec fn stored(log: Seq<([u8; 32], Vec<u8>)>, key: Seq<u8>) -> Option<Seq<u8>>
    decreases log.len(),
{
    if log.len() == 0 {
        None
    } else if log.last().0@ == key {
        Some(log.last().1@)
    } else {
        stored(log.drop_last(), key)
    }
}

/// Writes appended after earlier ones override them key by key.
pub proof fn lemma_overlay_append(a: Seq<([u8; 32], u64)>, b: Seq<([u8; 32], u64)>, key: Seq<u8>)
    ensures
        overlay(a + b, key, 0) == overlay(b, key, overlay(a, key, 0)),
    decreases b.len(),
{
    if b.len() == 0 {
        assert(a + b =~= a);
    } else {
        assert((a + b).drop_last() =~= a + b.drop_last());
        lemma_overlay_append(a, b.drop_last(), key);
    }
}

/// The ledger store.
pub struct StateDB {
    balances: Vec<([u8; 32], u64)>,
    nonces: Vec<([u8; 32], u64)>,
    blocks: Vec<([u8; 32], Vec<u8>)>,
    latest: Option<[u8; 32]>,
}

/// Looks up the last write of `key` in a log of integers.
fn lookup(log: &Vec<([u8; 32], u64)>, key: &[u8; 32]) -> (r: u64)
    ensures
        r == overlay(log@, key@, 0),
{
    let mut i = log.len();
    assert(log@.subrange(0, i as int) =~= log@);
    while i > 0
        invariant
            i <= log@.len(),
            overlay(log@.subrange(0, i as int), key@, 0) == overlay(log@, key@, 0),
        decreases i,
    {
        let ghost prefix = log@.subrange(0, i as int);
        assert(prefix.drop_last() =~= log@.subrange(0, i - 1));
        if hash_eq(&log[i - 1].0, key) {
            return log[i - 1].1;
        }
        i = i - 1;
    }
    0
}

/// A copy of a byte vector.
fn copy_bytes(b: &Vec<u8>) -> (r: Vec<u8>)
    ensures
        r@ == b@,
{
    let mut out: Vec<u8> = Vec::new();
    let mut i: usize = 0;
    while i < b.len()
        invariant
            i <= b@.len(),
            out@ == b@.subrange(0, i as int),
        decreases b@.len() - i,
    {
        out.push(b[i]);
        assert(out@ =~= b@.subrange(0, i + 1));
        i = i + 1;
    }
    assert(b@.subrange(0, b@.len() as int) =~= b@);
    out
}

impl StateDB {
    /// The balance of an address; 0 if it was never written.
    pub closed spec fn balance_of(&self, address: Seq<u8>) -> u64 {
        overlay(self.balances@, address, 0)
    }

    /// The nonce of an address; 0 if it was never written.
    pub closed spec fn nonce_of(&self, address: Seq<u8>) -> u64 {
        overlay(self.nonces@, address, 0)
    }

    /// The bytes stored for a block hash, if any.
    pub closed spec fn block_of(&self, hash: Seq<u8>) -> Option<Seq<u8>> {
        stored(self.blocks@, hash)
    }

    /// The latest block hash, if any.
    pub closed spec fn latest_of(&self) -> Option<[u8; 32]> {
        self.latest
    }

    /// An empty store: every balance and nonce 0, no blocks, no pointer.
    pub fn new() -> (r: StateDB)
        ensures
            forall|a: Seq<u8>| r.balance_of(a) == 0,
            forall|a: Seq<u8>| r.nonce_of(a) == 0,
            forall|h: Seq<u8>| r.block_of(h) is None,
            r.latest_of() is None,
    {
        StateDB { balances: Vec::new(), nonces: Vec::new(), blocks: Vec::new(), latest: None }
    }

    /// The balance of `address`.
    pub fn get_balance(&self, address: &[u8; 32]) -> (r: u64)
        ensures
            r == self.balance_of(address@),
    {
        lookup(&self.balances, address)
    }

    /// Sets the balance of `address`; nothing else changes.
    pub fn set_balance(&mut self, address: &[u8; 32], balance: u64)
        ensures
            forall|a: Seq<u8>|
                #[trigger] final(self).balance_of(a) == if a == address@ {
                    balance
                } else {
                    old(self).balance_of(a)
                },
            forall|a: Seq<u8>| #[trigger] final(self).nonce_of(a) == old(self).nonce_of(a),
            forall|h: Seq<u8>| #[trigger] final(self).block_of(h) == old(self).block_of(h),
            final(self).latest_of() == old(self).latest_of(),
    {
        self.balances.push((*address, balance));
        assert forall|a: Seq<u8>| #[trigger] self.balance_of(a) == if a == address@ {
            balance
        } else {
            old(self).balance_of(a)
        } by {
            assert(self.balances@.drop_last() =~= old(self).balances@);
        }
    }

    /// The nonce of `address`.
    pub fn get_nonce(&self, address: &[u8; 32]) -> (r: u64)
        ensures
            r == self.nonce_of(address@),
    {
        lookup(&self.nonces, address)
    }

    /// Adds one to the nonce of `address` and returns the new value.
    pub fn increment_nonce(&mut self, address: &[u8; 32]) -> (r: u64)
        requires
            old(self).nonce_of(address@) < u64::MAX,
        ensures
            r == old(self).nonce_of(address@) + 1,
            forall|a: Seq<u8>|
                #[trigger] final(self).nonce_of(a) == if a == address@ {
                    r
                } else {
                    old(self).nonce_of(a)
                },
            forall|a: Seq<u8>| #[trigger] final(self).balance_of(a) == old(self).balance_of(a),
            forall|h: Seq<u8>| #[trigger] final(self).block_of(h) == old(self).block_of(h),
            final(self).latest_of() == old(self).latest_of(),
    {
        let current = self.get_nonce(address);
        let next = current + 1;
        self.nonces.push((*address, next));
        assert forall|a: Seq<u8>| #[trigger] self.nonce_of(a) == if a == address@ {
            next
        } else {
            old(self).nonce_of(a)
        } by {
            assert(self.nonces@.drop_last() =~= old(self).nonces@);
        }
        next
    }

    /// Stores the encoding of a block under its hash.
    pub fn store_block(&mut self, block_hash: &[u8; 32], block_data: &[u8])
        ensures
            forall|h: Seq<u8>|
                #[trigger] final(self).block_of(h) == if h == block_hash@ {
                    Some(block_data@)
                } else {
                    old(self).block_of(h)
                },
            forall|a: Seq<u8>| #[trigger] final(self).balance_of(a) == old(self).balance_of(a),
            forall|a: Seq<u8>| #[trigger] final(self).nonce_of(a) == old(self).nonce_of(a),
            final(self).latest_of() == old(self).latest_of(),
    {
        let mut data: Vec<u8> = Vec::new();
        crate::encoding::push_bytes(&mut data, block_data);
        assert(data@ =~= block_data@);
        self.blocks.push((*block_hash, data));
        assert forall|h: Seq<u8>| #[trigger] self.block_of(h) == if h == block_hash@ {
            Some(block_data@)
        } else {
            old(self).block_of(h)
        } by {
            assert(self.blocks@.drop_last() =~= old(self).blocks@);
        }
    }

    /// The encoding stored under `block_hash`, if any.
    pub fn get_block(&self, block_hash: &[u8; 32]) -> (r: Option<Vec<u8>>)
        ensures
            match r {
                Some(v) => self.block_of(block_hash@) == Some(v@),
                None => self.block_of(block_hash@) is None,
            },
    {
        let mut i = self.blocks.len();
        assert(self.blocks@.subrange(0, i as int) =~= self.blocks@);
        while i > 0
            invariant
                i <= self.blocks@.len(),
                stored(self.blocks@.subrange(0, i as int), block_hash@) == stored(
                    self.blocks@,
                    block_hash@,
                ),
            decreases i,
        {
            let ghost prefix = self.blocks@.subrange(0, i as int);
            assert(prefix.drop_last() =~= self.blocks@.subrange(0, i - 1));
            if hash_eq(&self.blocks[i - 1].0, block_hash) {
                return Some(copy_bytes(&self.blocks[i - 1].1));
            }
            i = i - 1;
        }
        None
    }

    /// The latest block hash, if one was set.
    pub fn get_latest_block_hash(&self) -> (r: Option<[u8; 32]>)
        ensures
            r == self.latest_of(),
    {
        self.latest
    }

    /// Points the chain at `block_hash`; nothing else changes.
    pub fn set_latest_block_hash(&mut self, block_hash: &[u8; 32])
        ensures
            final(self).latest_of() == Some(*block_hash),
            forall|a: Seq<u8>| #[trigger] final(self).balance_of(a) == old(self).balance_of(a),
            forall|a: Seq<u8>| #[trigger] final(self).nonce_of(a) == old(self).nonce_of(a),
            forall|h: Seq<u8>| #[trigger] final(self).block_of(h) == old(self).block_of(h),
    {
        self.latest = Some(*block_hash);
    }

    /// Writes every initial balance in order; a later entry for the same
    /// address wins, and addresses not listed keep their balance.
    pub fn initialize_genesis(&mut self, initial_balances: &Vec<([u8; 32], u64)>)
        ensures
            forall|a: Seq<u8>|
                #[trigger] final(self).balance_of(a) == overlay(
                    initial_balances@,
                    a,
                    old(self).balance_of(a),
                ),
            forall|a: Seq<u8>| #[trigger] final(self).nonce_of(a) == old(self).nonce_of(a),
            forall|h: Seq<u8>| #[trigger] final(self).block_of(h) == old(self).block_of(h),
            final(self).latest_of() == old(self).latest_of(),
    {
        let mut i: usize = 0;
        while i < initial_balances.len()
            invariant
                i <= initial_balances@.len(),
                self.balances@ == old(self).balances@ + initial_balances@.subrange(0, i as int),
                self.nonces == old(self).nonces,
                self.blocks == old(self).blocks,
                self.latest == old(self).latest,
            decreases initial_balances@.len() - i,
        {
            let entry = initial_balances[i];
            self.balances.push(entry);
            assert(self.balances@ =~= old(self).balances@ + initial_balances@.subrange(0, i + 1));
            i = i + 1;
        }
        assert(initial_balances@.subrange(0, initial_balances@.len() as int) =~= initial_balances@);
        assert forall|a: Seq<u8>| #[trigger] self.balance_of(a) == overlay(
            initial_balances@,
            a,
            old(self).balance_of(a),
        ) by {
            lemma_overlay_append(old(self).balances@, initial_balances@, a);
        }
    }
}

} // verus!
