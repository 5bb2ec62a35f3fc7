//! An account-based ledger: signed transactions, blocks committed by a
//! Merkle root, a ledger store of balances and nonces, and the state
//! transition that applies one transaction to it.
pub mod crypto;
pub mod encoding;
pub mod transaction;
pub mod block;
pub mod state;
pub mod vm;
pub mod ledger;
pub mod genesis;
pub mod node;

pub use block::{Block, BlockHeader, compute_merkle_root};
pub use crypto::{
    PublicKey, Signature, SigningKey, decode_hex, double_sha256, encode_hex, generate_keypair,
    sha256, sign, verify,
};
pub use transaction::{Address, Transaction, TransactionPayload};
