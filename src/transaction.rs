//! Transactions: payloads, canonical encoding, signing and identity.
use vstd::prelude::*;
use vstd::utf8::encode_utf8;
use crate::crypto::{
    ed25519_accepts, ed25519_signature, sha256, sha256_of, sign, verify, PublicKey,
    Signature, SigningKey,
};
use crate::encoding::{
    framed, lemma_le_bytes_len, lemma_u64_le_injective, push_bytes, push_framed, push_u64_le, u64_le,
};

verus! {

/// An account address: the SHA-256 digest of a public key.
pub type Address = crate::crypto::Hash;

/// What a transaction asks for.
#[derive(Debug, Clone, PartialEq, Eq)]
pub enum TransactionPayload {
    /// Call of a function of a deployed module.
    MoveCall { module: String, function: String, args: Vec<u8> },
    /// Plain transfer of value.
    Transfer { to: Address, amount: u64 },
    /// Deployment of a module.
    DeployModule { bytecode: Vec<u8> },
}

/// A transaction: sender, payload, fee, nonce and an optional signature.
#[derive(Debug, Clone, PartialEq, Eq)]
pub struct Transaction {
    pub sender_pubkey: PublicKey,
    pub signature: Option<Signature>,
    pub payload: TransactionPayload,
    pub fee: u64,
    pub nonce: u64,
}

/// The canonical encoding of a payload: a tag byte, then its fields.
pub open spec fn payload_bytes(p: TransactionPayload) -> Seq<u8> {
    match p {
        TransactionPayload::MoveCall { module, function, args } => seq![0u8] + framed(
            encode_utf8(module@),
        ) + framed(encode_utf8(function@)) + framed(args@),
        TransactionPayload::Transfer { to, amount } => seq![1u8] + to@ + u64_le(amount),
        TransactionPayload::DeployModule { bytecode } => seq![2u8] + framed(bytecode@),
    }
}

/// The bytes that are signed: every field but the signature.
pub open spec fn signing_bytes(tx: Transaction) -> Seq<u8> {
    tx.sender_pubkey@ + payload_bytes(tx.payload) + u64_le(tx.fee) + u64_le(tx.nonce)
}

/// The encoding of every field, the signature included.
pub open spec fn full_bytes(tx: Transaction) -> Seq<u8> {
    signing_bytes(tx) + match tx.signature {
        None => seq![0u8],
        Some(s) => seq![1u8] + s@,
    }
}

/// The identity of a transaction.
pub open spec fn tx_hash(tx: Transaction) -> Seq<u8> {
    sha256_of(full_bytes(tx))
}

/// The address of a transaction's sender.
pub open spec fn sender_of(tx: Transaction) -> Seq<u8> {
    sha256_of(tx.sender_pubkey@)
}

/// A transaction carries a signature that verifies over its signing bytes.
pub open spec fn tx_verifies(tx: Transaction) -> bool {
    match tx.signature {
        None => false,
        Some(s) => ed25519_accepts(tx.sender_pubkey@, signing_bytes(tx), s@),
    }
}

/// `signed` is `tx` with the signature that `secret` gives its signing
/// bytes, every other field kept.
pub open spec fn is_signing_of(signed: Transaction, tx: Transaction, secret: Seq<u8>) -> bool {
    &&& signed.sender_pubkey == tx.sender_pubkey
    &&& signed.payload == tx.payload
    &&& signed.fee == tx.fee
    &&& signed.nonce == tx.nonce
    &&& signed.signature is Some
    &&& signed.signature->0@ == ed25519_signature(secret, signing_bytes(tx))
}

impl Transaction {
    /// A new unsigned transaction.
    pub fn new(sender_pubkey: PublicKey, payload: TransactionPayload, fee: u64, nonce: u64) -> (r:
        Transaction)
        ensures
            r == (Transaction { sender_pubkey, signature: None, payload, fee, nonce }),
    {
        Transaction { sender_pubkey, signature: None, payload, fee, nonce }
    }

    /// Signs the transaction: every field but the signature is kept, and the
    /// signature becomes that of the signing bytes under `signing_key`.
    pub fn sign(self, signing_key: &SigningKey) -> (r: Transaction)
        ensures
            is_signing_of(r, self, signing_key.secret@),
    {
        let bytes = self.to_bytes_for_signing();
        let signature = sign(signing_key, bytes.as_slice());
        let mut tx = self;
        tx.signature = Some(signature);
        tx
    }

    /// Whether the signature is present and verifies under the sender's key.
    pub fn verify(&self) -> (r: bool)
        ensures
            r == tx_verifies(*self),
    {
        match &self.signature {
            Some(sig) => {
                let bytes = self.to_bytes_for_signing();
                verify(&self.sender_pubkey, bytes.as_slice(), sig)
            },
            None => false,
        }
    }

    /// The single-round digest of the full encoding.
    pub fn hash(&self) -> (r: crate::crypto::Hash)
        ensures
            r@ == tx_hash(*self),
    {
        let bytes = self.to_bytes();
        sha256(bytes.as_slice())
    }

    /// The sender's address: the digest of the public key.
    pub fn sender_address(&self) -> (r: Address)
        ensures
            r@ == sender_of(*self),
    {
        sha256(self.sender_pubkey.as_slice())
    }

    /// The signing bytes.
    pub fn to_bytes_for_signing(&self) -> (r: Vec<u8>)
        ensures
            r@ == signing_bytes(*self),
    {
        let mut out: Vec<u8> = Vec::new();
        push_bytes(&mut out, self.sender_pubkey.as_slice());
        match &self.payload {
            TransactionPayload::MoveCall { module, function, args } => {
                out.push(0u8);
                push_framed(&mut out, module.as_str().as_bytes());
                push_framed(&mut out, function.as_str().as_bytes());
                push_framed(&mut out, args.as_slice());
            },
            TransactionPayload::Transfer { to, amount } => {
                out.push(1u8);
                push_bytes(&mut out, to.as_slice());
                push_u64_le(&mut out, *amount);
            },
            TransactionPayload::DeployModule { bytecode } => {
                out.push(2u8);
                push_framed(&mut out, bytecode.as_slice());
            },
        }
        push_u64_le(&mut out, self.fee);
        push_u64_le(&mut out, self.nonce);
        assert(out@ =~= signing_bytes(*self));
        out
    }

    /// The full encoding.
    pub fn to_bytes(&self) -> (r: Vec<u8>)
        ensures
            r@ == full_bytes(*self),
    {
        let mut out = self.to_bytes_for_signing();
        match &self.signature {
            None => {
                out.push(0u8);
            },
            Some(s) => {
                out.push(1u8);
                push_bytes(&mut out, s.as_slice());
            },
        }
        assert(out@ =~= full_bytes(*self));
        out
    }
}

/// Signing and verification agree on the message: a signed transaction
/// keeps its signing bytes, and it verifies exactly when Ed25519 accepts,
/// under the sender's key, the signature that the secret gives those bytes.
/// Whenever the sender's key belongs to the secret, that is Ed25519's own
/// guarantee for its signatures.
pub proof fn lemma_signed_transaction_verifies(signed: Transaction, tx: Transaction, secret: Seq<u8>)
    requires
        is_signing_of(signed, tx, secret),
    ensures
        signing_bytes(signed) == signing_bytes(tx),
        tx_verifies(signed) == ed25519_accepts(
            tx.sender_pubkey@,
            signing_bytes(tx),
            ed25519_signature(secret, signing_bytes(tx)),
        ),
{
}

/// Changing the fee or the nonce of a signed transaction changes the
/// message that verification checks, while the signature stays that of the
/// old message.
pub proof fn lemma_altered_fee_or_nonce_changes_message(signed: Transaction, altered: Transaction)
    requires
        altered.sender_pubkey == signed.sender_pubkey,
        altered.payload == signed.payload,
        altered.fee != signed.fee || altered.nonce != signed.nonce,
    ensures
        signing_bytes(altered) != signing_bytes(signed),
{
    let head = signed.sender_pubkey@ + payload_bytes(signed.payload);
    let a = signing_bytes(altered);
    let b = signing_bytes(signed);
    lemma_le_bytes_len(altered.fee as nat, 8);
    lemma_le_bytes_len(signed.fee as nat, 8);
    lemma_le_bytes_len(altered.nonce as nat, 8);
    lemma_le_bytes_len(signed.nonce as nat, 8);
    if a == b {
        let k = head.len() as int;
        assert(a.subrange(k, k + 8) =~= u64_le(altered.fee));
        assert(b.subrange(k, k + 8) =~= u64_le(signed.fee));
        assert(a.subrange(k + 8, k + 16) =~= u64_le(altered.nonce));
        assert(b.subrange(k + 8, k + 16) =~= u64_le(signed.nonce));
        lemma_u64_le_injective(altered.fee, signed.fee);
        lemma_u64_le_injective(altered.nonce, signed.nonce);
    }
}

} // verus!
