//! Blocks, their headers, and the Merkle commitment to their transactions.
use vstd::prelude::*;
use crate::crypto::{double_sha256, double_sha256_of, hash_eq, zero_digest, zero_hash};
use crate::encoding::{push_bytes, push_framed, push_u64_le, u64_le, framed};
use crate::transaction::{Transaction, full_bytes, tx_hash, tx_verifies};

verus! {

/// The header of a block.
#[derive(Debug, Clone, Copy, PartialEq, Eq)]
pub struct BlockHeader {
    pub index: u64,
    pub timestamp: u64,
    pub previous_hash: crate::crypto::Hash,
    pub merkle_root: crate::crypto::Hash,
}

/// A block: a header and its ordered transactions.
#[derive(Debug, Clone, PartialEq, Eq)]
pub struct Block {
    pub header: BlockHeader,
    pub transactions: Vec<Transaction>,
}

/// The bytes of a header that its hash covers, in fixed order.
pub open spec fn header_bytes(h: BlockHeader) -> Seq<u8> {
    u64_le(h.index) + u64_le(h.timestamp) + h.previous_hash@ + h.merkle_root@
}

/// The identity of a header.
pub open spec fn header_hash(h: BlockHeader) -> Seq<u8> {
    double_sha256_of(header_bytes(h))
}

/// A Merkle node over two child digests.
pub open spec fn node_hash(left: Seq<u8>, right: Seq<u8>) -> Seq<u8> {
    double_sha256_of(left + right)
}

/// One level up the tree: adjacent pairs are combined, and an odd last
/// digest is combined with itself.
pub open spec fn next_level(level: Seq<Seq<u8>>) -> Seq<Seq<u8>> {
    Seq::new(
        ((level.len() + 1) / 2) as nat,
        |i: int|
            node_hash(
                level[2 * i],
                if 2 * i + 1 < level.len() {
                    level[2 * i + 1]
                } else {
                    level[2 * i]
                },
            ),
    )
}

/// The root over a non-empty level: levels are combined until one digest
/// is left.
pub open spec fn fold_levels(level: Seq<Seq<u8>>) -> Seq<u8>
    decreases level.len(),
{
    if level.len() <= 1 {
        level[0]
    } else {
        fold_levels(next_level(level))
    }
}

/// The leaves of the tree: the identities of the transactions, in order.
pub open spec fn leaves(txs: Seq<Transaction>) -> Seq<Seq<u8>> {
    txs.map_values(|t: Transaction| tx_hash(t))
}

/// The Merkle root of a sequence of transactions; the all-zero digest when
/// there are none.
pub open spec fn merkle_root(txs: Seq<Transaction>) -> Seq<u8> {
    if txs.len() == 0 {
        zero_hash()
    } else {
        fold_levels(leaves(txs))
    }
}

/// A block is valid when its root commits to its transactions and every
/// transaction verifies.
pub open spec fn block_valid(b: Block) -> bool {
    &&& b.header.merkle_root@ == merkle_root(b.transactions@)
    &&& forall|i: int| 0 <= i < b.transactions@.len() ==> tx_verifies(#[trigger] b.transactions@[i])
}

/// The stored encoding of a block: its header bytes, then each transaction's
/// full encoding with its length in front.
pub open spec fn block_bytes(b: Block) -> Seq<u8> {
    header_bytes(b.header) + u64_le(b.transactions@.len() as u64) + framed_all(b.transactions@)
}

/// The full encodings of a sequence of transactions, each length-prefixed.
pub open spec fn framed_all(txs: Seq<Transaction>) -> Seq<u8>
    decreases txs.len(),
{
    if txs.len() == 0 {
        Seq::empty()
    } else {
        framed_all(txs.drop_last()) + framed(full_bytes(txs.last()))
    }
}

spec fn views(hs: Seq<crate::crypto::Hash>) -> Seq<Seq<u8>> {
    hs.map_values(|h: crate::crypto::Hash| h@)
}

impl BlockHeader {
    /// A header with a zero Merkle root, to be filled in by `Block::new`.
    pub fn new(index: u64, timestamp: u64, previous_hash: crate::crypto::Hash) -> (r: BlockHeader)
        ensures
            r.index == index,
            r.timestamp == timestamp,
            r.previous_hash == previous_hash,
            r.merkle_root@ == zero_hash(),
    {
        BlockHeader { index, timestamp, previous_hash, merkle_root: zero_digest() }
    }

    /// The header bytes.
    pub fn to_bytes(&self) -> (r: Vec<u8>)
        ensures
            r@ == header_bytes(*self),
    {
        let mut bytes: Vec<u8> = Vec::new();
        push_u64_le(&mut bytes, self.index);
        push_u64_le(&mut bytes, self.timestamp);
        push_bytes(&mut bytes, self.previous_hash.as_slice());
        push_bytes(&mut bytes, self.merkle_root.as_slice());
        assert(bytes@ =~= header_bytes(*self));
        bytes
    }

    /// The double-round digest of the header bytes.
    pub fn hash(&self) -> (r: crate::crypto::Hash)
        ensures
            r@ == header_hash(*self),
    {
        let bytes = self.to_bytes();
        double_sha256(bytes.as_slice())
    }
}

/// The Merkle node over two digests.
fn combine(left: &crate::crypto::Hash, right: &crate::crypto::Hash) -> (r: crate::crypto::Hash)
    ensures
        r@ == node_hash(left@, right@),
{
    let mut bytes: Vec<u8> = Vec::new();
    push_bytes(&mut bytes, left.as_slice());
    push_bytes(&mut bytes, right.as_slice());
    double_sha256(bytes.as_slice())
}

/// Computes the next level of the tree.
fn hash_level(level: &Vec<crate::crypto::Hash>) -> (r: Vec<crate::crypto::Hash>)
    requires
        level@.len() >= 1,
    ensures
        r@.len() == (level@.len() + 1) / 2,
        views(r@) == next_level(views(level@)),
{
    let n = level.len();
    let ghost lv = views(level@);
    let ghost target = next_level(lv);
    let mut next: Vec<crate::crypto::Hash> = Vec::new();
    let mut i: usize = 0;
    while i < n
        invariant
            n == level@.len(),
            lv == views(level@),
            target == next_level(lv),
            i < n ==> i % 2 == 0,
            i <= n,
            next@.len() == (i + 1) / 2,
            forall|j: int| 0 <= j < next@.len() ==> #[trigger] next@[j]@ == target[j],
        decreases n - i,
    {
        let right = if i + 1 < n {
            level[i + 1]
        } else {
            level[i]
        };
        let h = combine(&level[i], &right);
        assert(h@ == target[i as int / 2]);
        next.push(h);
        i = if i + 1 < n {
            i + 2
        } else {
            n
        };
    }
    assert(views(next@) =~= target);
    next
}

/// The Merkle root of `transactions`: the all-zero digest for none, the
/// transaction's own identity for one, otherwise the fold of the tree.
pub fn compute_merkle_root(transactions: &[Transaction]) -> (r: crate::crypto::Hash)
    ensures
        r@ == merkle_root(transactions@),
{
    if transactions.len() == 0 {
        return zero_digest();
    }
    if transactions.len() == 1 {
        let h = transactions[0].hash();
        assert(leaves(transactions@).len() == 1);
        return h;
    }
    let mut hashes: Vec<crate::crypto::Hash> = Vec::new();
    let mut k: usize = 0;
    while k < transactions.len()
        invariant
            k <= transactions@.len(),
            hashes@.len() == k,
            forall|j: int| 0 <= j < k ==> #[trigger] hashes@[j]@ == tx_hash(transactions@[j]),
        decreases transactions@.len() - k,
    {
        let h = transactions[k].hash();
        hashes.push(h);
        k = k + 1;
    }
    assert(views(hashes@) =~= leaves(transactions@));
    while hashes.len() > 1
        invariant
            hashes@.len() >= 1,
            fold_levels(views(hashes@)) == fold_levels(leaves(transactions@)),
        decreases hashes@.len(),
    {
        let next = hash_level(&hashes);
        assert(fold_levels(views(hashes@)) == fold_levels(next_level(views(hashes@))));
        hashes = next;
    }
    hashes[0]
}

impl Block {
    /// A block over `transactions`; the header's root is always recomputed.
    pub fn new(header: BlockHeader, transactions: Vec<Transaction>) -> (r: Block)
        ensures
            r.transactions@ == transactions@,
            r.header.index == header.index,
            r.header.timestamp == header.timestamp,
            r.header.previous_hash == header.previous_hash,
            r.header.merkle_root@ == merkle_root(transactions@),
    {
        let mut block = Block { header, transactions };
        block.update_merkle_root();
        block
    }

    /// Sets the header's root from the transactions.
    fn update_merkle_root(&mut self)
        ensures
            final(self).transactions == old(self).transactions,
            final(self).header.index == old(self).header.index,
            final(self).header.timestamp == old(self).header.timestamp,
            final(self).header.previous_hash == old(self).header.previous_hash,
            final(self).header.merkle_root@ == merkle_root(old(self).transactions@),
    {
        self.header.merkle_root = compute_merkle_root(self.transactions.as_slice());
    }

    /// The block's identity: the hash of its header.
    pub fn hash(&self) -> (r: crate::crypto::Hash)
        ensures
            r@ == header_hash(self.header),
    {
        self.header.hash()
    }

    /// Whether the root matches the transactions and every transaction
    /// verifies.
    pub fn verify(&self) -> (r: bool)
        ensures
            r == block_valid(*self),
    {
        let computed_root = compute_merkle_root(self.transactions.as_slice());
        if !hash_eq(&computed_root, &self.header.merkle_root) {
            return false;
        }
        let mut i: usize = 0;
        while i < self.transactions.len()
            invariant
                i <= self.transactions@.len(),
                forall|j: int| 0 <= j < i ==> tx_verifies(#[trigger] self.transactions@[j]),
            decreases self.transactions@.len() - i,
        {
            if !self.transactions[i].verify() {
                return false;
            }
            i = i + 1;
        }
        true
    }

    /// The hash of the previous block.
    pub fn previous_hash(&self) -> (r: crate::crypto::Hash)
        ensures
            r == self.header.previous_hash,
    {
        self.header.previous_hash
    }

    /// The height of the block.
    pub fn index(&self) -> (r: u64)
        ensures
            r == self.header.index,
    {
        self.header.index
    }

    /// The stored encoding of the block.
    pub fn to_bytes(&self) -> (r: Vec<u8>)
        ensures
            r@ == block_bytes(*self),
    {
        let mut out = self.header.to_bytes();
        push_u64_le(&mut out, self.transactions.len() as u64);
        let ghost start = out@;
        let mut i: usize = 0;
        while i < self.transactions.len()
            invariant
                i <= self.transactions@.len(),
                out@ == start + framed_all(self.transactions@.subrange(0, i as int)),
            decreases self.transactions@.len() - i,
        {
            let enc = self.transactions[i].to_bytes();
            push_framed(&mut out, enc.as_slice());
            let ghost pre = self.transactions@.subrange(0, i as int);
            let ghost post = self.transactions@.subrange(0, i + 1);
            assert(post.drop_last() =~= pre);
            assert(out@ =~= start + framed_all(post));
            i = i + 1;
        }
        assert(self.transactions@.subrange(0, self.transactions@.len() as int)
            =~= self.transactions@);
        out
    }
}

/// The root is a function of the transaction sequence: equal sequences
/// have equal roots.
pub proof fn lemma_merkle_root_deterministic(a: Seq<Transaction>, b: Seq<Transaction>)
    requires
        a == b,
    ensures
        merkle_root(a) == merkle_root(b),
{
}

/// No transactions give the all-zero digest, and one transaction gives its
/// own identity.
pub proof fn lemma_merkle_root_small(tx: Transaction)
    ensures
        merkle_root(Seq::<Transaction>::empty()) == zero_hash(),
        merkle_root(seq![tx]) == tx_hash(tx),
{
    assert(leaves(seq![tx]).len() == 1);
}

/// An odd level pairs its last digest with itself: three transactions give
/// `node(node(a, b), node(c, c))` over their identities.
pub proof fn lemma_merkle_root_three(a: Transaction, b: Transaction, c: Transaction)
    ensures
        merkle_root(seq![a, b, c]) == node_hash(
            node_hash(tx_hash(a), tx_hash(b)),
            node_hash(tx_hash(c), tx_hash(c)),
        ),
{
    let l0 = leaves(seq![a, b, c]);
    assert(l0 =~= seq![tx_hash(a), tx_hash(b), tx_hash(c)]);
    let l1 = next_level(l0);
    assert(l1 =~= seq![node_hash(tx_hash(a), tx_hash(b)), node_hash(tx_hash(c), tx_hash(c))]);
    let l2 = next_level(l1);
    assert(l2 =~= seq![node_hash(l1[0], l1[1])]);
    assert(fold_levels(l2) == l2[0]);
    assert(fold_levels(l1) == fold_levels(l2));
    assert(fold_levels(l0) == fold_levels(l1));
}

/// A block fails verification when any of its transactions does not verify,
/// or when its header's root differs from the root of its transactions.
pub proof fn lemma_block_tampering_detected(b: Block, i: int)
    requires
        (0 <= i < b.transactions@.len() && !tx_verifies(b.transactions@[i]))
            || b.header.merkle_root@ != merkle_root(b.transactions@),
    ensures
        !block_valid(b),
{
}

} // verus!
