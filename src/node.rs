//! The node: one owner of the ledger store, through which every
//! transaction, block and query passes in turn.
use vstd::prelude::*;
use vstd::string::StringSliceAdditionalSpecFns;
use vstd::utf8::encode_utf8;
use crate::block::{Block, block_valid, header_hash};
use crate::crypto::{decode_hex_bytes, hex_bytes, is_hex};
use crate::genesis::{GenesisConfig, genesis_step, run_genesis};
use crate::ledger::{TxError, apply_error, apply_transaction, balance_after, nonce_after};
use crate::state::StateDB;
use crate::transaction::{Address, Transaction};
use crate::vm::VM;

verus! {

/// The genesis settings as configured: the treasury as hex text.
#[derive(Debug, Clone, PartialEq, Eq)]
pub struct GenesisConfigToml {
    pub treasury_address: String,
    pub initial_supply: u64,
}

/// Why a node could not start.
#[derive(Debug, Clone, Copy, PartialEq, Eq, Structural)]
pub enum NodeError {
    /// The treasury address is not hex text.
    InvalidTreasuryAddress,
    /// The treasury address does not decode to 32 bytes.
    TreasuryAddressLength { len: usize },
}

/// Why a block was not appended to the chain.
#[derive(Debug, Clone, Copy, PartialEq, Eq, Structural)]
pub enum ChainError {
    /// The block's previous hash is not the chain's latest hash.
    BrokenLink,
    /// The block's root or one of its transactions does not verify.
    InvalidBlock,
}

/// `t` with every leading "0x" removed.
pub open spec fn strip_hex_prefix(t: Seq<u8>) -> Seq<u8>
    decreases t.len(),
{
    if t.len() >= 2 && t[0] == 48 && t[1] == 120 {
        strip_hex_prefix(t.subrange(2, t.len() as int))
    } else {
        t
    }
}

/// The address that hex text with optional leading "0x" stands for, or why
/// it stands for none.
pub open spec fn address_from_text(t: Seq<u8>) -> Result<Seq<u8>, NodeError> {
    let digits = strip_hex_prefix(t);
    if !is_hex(digits) {
        Err(NodeError::InvalidTreasuryAddress)
    } else if hex_bytes(digits).len() != 32 {
        Err(NodeError::TreasuryAddressLength { len: hex_bytes(digits).len() as usize })
    } else {
        Ok(hex_bytes(digits))
    }
}

/// Reads a 32-byte address from hex text with optional leading "0x".
pub fn parse_address(text: &str) -> (r: Result<Address, NodeError>)
    ensures
        match r {
            Ok(a) => address_from_text(text.spec_bytes()) == Ok::<Seq<u8>, NodeError>(a@),
            Err(e) => address_from_text(text.spec_bytes()) == Err::<Seq<u8>, NodeError>(e),
        },
{
    let bytes = text.as_bytes();
    let mut start: usize = 0;
    assert(bytes@.subrange(0, bytes@.len() as int) =~= bytes@);
    while bytes.len() - start >= 2 && bytes[start] == 48u8 && bytes[start + 1] == 120u8
        invariant
            start <= bytes@.len(),
            strip_hex_prefix(bytes@.subrange(start as int, bytes@.len() as int))
                == strip_hex_prefix(bytes@),
        decreases bytes@.len() - start,
    {
        let ghost rest = bytes@.subrange(start as int, bytes@.len() as int);
        assert(rest.subrange(2, rest.len() as int) =~= bytes@.subrange(
            start + 2,
            bytes@.len() as int,
        ));
        start = start + 2;
    }
    let digits = &bytes[start..bytes.len()];
    proof {
        let rest = bytes@.subrange(start as int, bytes@.len() as int);
        assert(digits@ == rest);
        assert(strip_hex_prefix(rest) == rest);
    }
    match decode_hex_bytes(digits) {
        Err(_) => Err(NodeError::InvalidTreasuryAddress),
        Ok(v) => {
            if v.len() != 32 {
                return Err(NodeError::TreasuryAddressLength { len: v.len() });
            }
            let mut a: Address = [0u8; 32];
            let mut i: usize = 0;
            while i < 32
                invariant
                    i <= 32,
                    v@.len() == 32,
                    a@.len() == 32,
                    forall|j: int| 0 <= j < i ==> a@[j] == v@[j],
                decreases 32 - i,
            {
                a.set(i, v[i]);
                i = i + 1;
            }
            assert(a@ =~= v@);
            Ok(a)
        },
    }
}

/// The node.
pub struct Node {
    state: StateDB,
    vm: VM,
    chain_id: u64,
    network_id: u64,
}

impl Node {
    /// The ledger store that the node owns.
    pub closed spec fn ledger(&self) -> StateDB {
        self.state
    }

    /// The configured chain id.
    pub closed spec fn chain_id_of(&self) -> u64 {
        self.chain_id
    }

    /// The configured network id.
    pub closed spec fn network_id_of(&self) -> u64 {
        self.network_id
    }

    /// Starts a node on `state`.  When the store has no chain yet, the
    /// treasury address is read and genesis runs at `timestamp`; a store
    /// with a chain is taken as it is.
    pub fn new(
        state: StateDB,
        genesis_config: &GenesisConfigToml,
        timestamp: u64,
        chain_id: u64,
        network_id: u64,
    ) -> (r: Result<Node, NodeError>)
        ensures
            state.latest_of() is Some ==> r is Ok,
            match r {
                Ok(node) => {
                    &&& node.chain_id_of() == chain_id
                    &&& node.network_id_of() == network_id
                    &&& state.latest_of() is Some ==> node.ledger() == state
                    &&& state.latest_of() is None ==> exists|c: GenesisConfig|
                        Ok::<Seq<u8>, NodeError>(c.treasury_address@) == address_from_text(
                            encode_utf8(genesis_config.treasury_address@),
                        ) && c.initial_supply == genesis_config.initial_supply && c.timestamp
                            == timestamp && genesis_step(state, node.ledger(), c)
                },
                Err(e) => state.latest_of() is None && address_from_text(
                    encode_utf8(genesis_config.treasury_address@),
                ) == Err::<Seq<u8>, NodeError>(e),
            },
    {
        let mut state = state;
        let ghost initial = state;
        if state.get_latest_block_hash().is_none() {
            let treasury_address = match parse_address(genesis_config.treasury_address.as_str()) {
                Ok(a) => a,
                Err(e) => {
                    return Err(e);
                },
            };
            let config = GenesisConfig {
                treasury_address,
                initial_supply: genesis_config.initial_supply,
                timestamp,
            };
            run_genesis(&mut state, &config);
            let node = Node { state, vm: VM::new(), chain_id, network_id };
            assert(genesis_step(initial, node.ledger(), config));
            return Ok(node);
        }
        Ok(Node { state, vm: VM::new(), chain_id, network_id })
    }

    /// Executes `tx` and applies it to the ledger.
    pub fn process_transaction(&mut self, tx: &Transaction) -> (r: Result<(), TxError>)
        ensures
            final(self).chain_id_of() == old(self).chain_id_of(),
            final(self).network_id_of() == old(self).network_id_of(),
            match r {
                Ok(_) => apply_error(old(self).ledger(), *tx, true) is None,
                Err(e) => apply_error(old(self).ledger(), *tx, true) == Some(e),
            },
            r is Err ==> final(self).ledger() == old(self).ledger(),
            r is Ok ==> {
                &&& forall|a: Seq<u8>|
                    #[trigger] final(self).ledger().balance_of(a) as int == balance_after(
                        old(self).ledger(),
                        *tx,
                        a,
                    )
                &&& forall|a: Seq<u8>|
                    #[trigger] final(self).ledger().nonce_of(a) as int == nonce_after(
                        old(self).ledger(),
                        *tx,
                        a,
                    )
                &&& final(self).ledger().latest_of() == old(self).ledger().latest_of()
            },
    {
        let result = self.vm.execute_transaction(tx);
        apply_transaction(&mut self.state, tx, &result)
    }

    /// Appends `block` to the chain: it must link to the latest hash and
    /// verify.  It is then stored under its hash and becomes the latest.
    pub fn append_block(&mut self, block: &Block) -> (r: Result<(), ChainError>)
        ensures
            final(self).chain_id_of() == old(self).chain_id_of(),
            final(self).network_id_of() == old(self).network_id_of(),
            match r {
                Ok(_) => {
                    &&& old(self).ledger().latest_of() is Some
                    &&& old(self).ledger().latest_of()->0 == block.header.previous_hash
                    &&& block_valid(*block)
                    &&& final(self).ledger().latest_of() is Some
                    &&& final(self).ledger().latest_of()->0@ == header_hash(block.header)
                    &&& final(self).ledger().block_of(header_hash(block.header)) is Some
                    &&& forall|a: Seq<u8>|
                        #[trigger] final(self).ledger().balance_of(a) == old(
                            self,
                        ).ledger().balance_of(a)
                    &&& forall|a: Seq<u8>|
                        #[trigger] final(self).ledger().nonce_of(a) == old(self).ledger().nonce_of(
                            a,
                        )
                },
                Err(ChainError::BrokenLink) => !(old(self).ledger().latest_of() is Some
                    && old(self).ledger().latest_of()->0 == block.header.previous_hash),
                Err(ChainError::InvalidBlock) => old(self).ledger().latest_of() is Some
                    && old(self).ledger().latest_of()->0 == block.header.previous_hash
                    && !block_valid(*block),
            },
            r is Err ==> final(self).ledger() == old(self).ledger(),
    {
        let linked = match self.state.get_latest_block_hash() {
            Some(latest) => crate::crypto::hash_eq(&latest, &block.header.previous_hash),
            None => false,
        };
        if !linked {
            proof {
                if self.state.latest_of() is Some {
                    let l = self.state.latest_of()->0;
                    if l == block.header.previous_hash {
                        assert(l@ == block.header.previous_hash@);
                    }
                }
            }
            return Err(ChainError::BrokenLink);
        }
        proof {
            let l = self.state.latest_of()->0;
            assert(l@ =~= block.header.previous_hash@);
            assert(l =~= block.header.previous_hash);
        }
        if !block.verify() {
            return Err(ChainError::InvalidBlock);
        }
        let hash = block.hash();
        let data = block.to_bytes();
        self.state.store_block(&hash, data.as_slice());
        self.state.set_latest_block_hash(&hash);
        Ok(())
    }

    /// The balance of `address`.
    pub fn get_balance(&self, address: &Address) -> (r: u64)
        ensures
            r == self.ledger().balance_of(address@),
    {
        self.state.get_balance(address)
    }

    /// The stored encoding of the latest block, if the chain has one.
    pub fn get_latest_block(&self) -> (r: Option<Vec<u8>>)
        ensures
            match r {
                Some(v) => self.ledger().latest_of() is Some && self.ledger().block_of(
                    self.ledger().latest_of()->0@,
                ) == Some(v@),
                None => self.ledger().latest_of() is None || self.ledger().block_of(
                    self.ledger().latest_of()->0@,
                ) is None,
            },
    {
        match self.state.get_latest_block_hash() {
            Some(hash) => self.state.get_block(&hash),
            None => None,
        }
    }

    /// The stored encoding of the block with hash `hash`, if any.
    pub fn get_block_by_hash(&self, hash: &crate::crypto::Hash) -> (r: Option<Vec<u8>>)
        ensures
            match r {
                Some(v) => self.ledger().block_of(hash@) == Some(v@),
                None => self.ledger().block_of(hash@) is None,
            },
    {
        self.state.get_block(hash)
    }

    /// The configured chain id.
    pub fn chain_id(&self) -> (r: u64)
        ensures
            r == self.chain_id_of(),
    {
        self.chain_id
    }

    /// The configured network id.
    pub fn network_id(&self) -> (r: u64)
        ensures
            r == self.network_id_of(),
    {
        self.network_id
    }
}

} // verus!
