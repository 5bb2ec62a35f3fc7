//! Digests, Ed25519 signatures and hex text.
//!
//! SHA-256 and Ed25519 are far too large to restate, so their results are
//! given names (`sha256_of`, `ed25519_public`, `ed25519_signature`,
//! `ed25519_accepts`) that depend on the arguments alone.  Hex text is small
//! enough to state exactly.
use vstd::prelude::*;
use vstd::string::StringSliceAdditionalSpecFns;
use ed25519_dalek::Signer;
use sha2::Digest;

verus! {

/// A 32-byte digest.
pub type Hash = [u8; 32];

/// An Ed25519 public key in its 32-byte compressed encoding.
pub type PublicKey = [u8; 32];

/// An Ed25519 signature in its 64-byte encoding.
pub type Signature = [u8; 64];

/// The SHA-256 digest of a byte string.
pub uninterp spec fn sha256_of(data: Seq<u8>) -> Seq<u8>;

/// The Ed25519 public key (compressed point) that belongs to a 32-byte secret.
pub uninterp spec fn ed25519_public(secret: Seq<u8>) -> Seq<u8>;

/// The Ed25519 signature that a 32-byte secret gives to a message.
pub uninterp spec fn ed25519_signature(secret: Seq<u8>, msg: Seq<u8>) -> Seq<u8>;

/// Whether strict Ed25519 verification accepts `sig` on `msg` under `pk`.
pub uninterp spec fn ed25519_accepts(pk: Seq<u8>, msg: Seq<u8>, sig: Seq<u8>) -> bool;

/// Hash-of-hash: the digest used for block headers and Merkle nodes.
pub open spec fn double_sha256_of(data: Seq<u8>) -> Seq<u8> {
    sha256_of(sha256_of(data))
}

/// The all-zero digest.
pub open spec fn zero_hash() -> Seq<u8> {
    Seq::new(32, |_i: int| 0u8)
}

/// Relies on sha2::Sha256::digest: the SHA-256 digest of `data`, which
/// depends on the bytes alone.
#[verifier::external_body]
pub fn sha256(data: &[u8]) -> (r: Hash)
    ensures
        r@ == sha256_of(data@),
{
    sha2::Sha256::digest(data).into()
}

/// SHA-256 applied twice.
pub fn double_sha256(data: &[u8]) -> (r: Hash)
    ensures
        r@ == double_sha256_of(data@),
{
    let first = sha256(data);
    sha256(first.as_slice())
}

/// The all-zero digest as a value.
pub fn zero_digest() -> (r: Hash)
    ensures
        r@ == zero_hash(),
{
    let r: Hash = [0u8; 32];
    proof {
        broadcast use vstd::array::axiom_spec_array_fill_for_copy_type;
        assert(r@ =~= zero_hash());
    }
    r
}

/// Byte-for-byte comparison of two digests.
pub fn hash_eq(a: &Hash, b: &Hash) -> (r: bool)
    ensures
        r == (a@ == b@),
{
    let mut i: usize = 0;
    while i < 32
        invariant
            i <= 32,
            a@.len() == 32,
            b@.len() == 32,
            forall|j: int| 0 <= j < i ==> a@[j] == b@[j],
        decreases 32 - i,
    {
        if a[i] != b[i] {
            return false;
        }
        i = i + 1;
    }
    assert(a@ =~= b@);
    true
}

/// A signing identity: the 32-byte Ed25519 secret.
pub struct SigningKey {
    pub secret: [u8; 32],
}

impl SigningKey {
    /// The identity with the given secret.
    pub fn from_bytes(secret: &[u8; 32]) -> (r: SigningKey)
        ensures
            r.secret == *secret,
    {
        SigningKey { secret: *secret }
    }

    /// The public key that belongs to this identity.
    pub fn verifying_key(&self) -> (r: PublicKey)
        ensures
            r@ == ed25519_public(self.secret@),
    {
        public_key_of(&self.secret)
    }
}

/// Relies on ed25519_dalek::SigningKey::verifying_key: the compressed public
/// key of a secret, a function of the secret alone.
#[verifier::external_body]
fn public_key_of(secret: &[u8; 32]) -> (r: PublicKey)
    ensures
        r@ == ed25519_public(secret@),
{
    ed25519_dalek::SigningKey::from_bytes(secret).verifying_key().to_bytes()
}

/// Relies on ed25519_dalek::SigningKey::generate with the operating system's
/// random source: a fresh secret, of which nothing more is known.
#[verifier::external_body]
fn random_secret() -> (r: [u8; 32]) {
    ed25519_dalek::SigningKey::generate(&mut rand::rngs::OsRng).to_bytes()
}

/// Relies on ed25519_dalek::Signer::sign for SigningKey: the deterministic
/// Ed25519 signature of `data` under `secret`.
#[verifier::external_body]
fn signature_of(secret: &[u8; 32], data: &[u8]) -> (r: Signature)
    ensures
        r@ == ed25519_signature(secret@, data@),
{
    ed25519_dalek::SigningKey::from_bytes(secret).sign(data).to_bytes()
}

/// Relies on ed25519_dalek::VerifyingKey::from_bytes and
/// VerifyingKey::verify_strict: a key that does not decode is rejected, and
/// the answer depends on the three byte strings alone.
#[verifier::external_body]
fn strict_verify(pk: &PublicKey, data: &[u8], sig: &Signature) -> (r: bool)
    ensures
        r == ed25519_accepts(pk@, data@, sig@),
{
    match ed25519_dalek::VerifyingKey::from_bytes(pk) {
        Ok(key) => key.verify_strict(data, &ed25519_dalek::Signature::from_bytes(sig)).is_ok(),
        Err(_) => false,
    }
}

/// A fresh random identity and its public key.
pub fn generate_keypair() -> (r: (SigningKey, PublicKey))
    ensures
        r.1@ == ed25519_public(r.0.secret@),
{
    let secret = random_secret();
    let key = SigningKey { secret };
    let public = key.verifying_key();
    (key, public)
}

/// Signs `data` with `signing_key`.
pub fn sign(signing_key: &SigningKey, data: &[u8]) -> (r: Signature)
    ensures
        r@ == ed25519_signature(signing_key.secret@, data@),
{
    signature_of(&signing_key.secret, data)
}

/// Checks a signature; a malformed key or signature gives `false`.
pub fn verify(verifying_key: &PublicKey, data: &[u8], signature: &Signature) -> (r: bool)
    ensures
        r == ed25519_accepts(verifying_key@, data@, signature@),
{
    strict_verify(verifying_key, data, signature)
}

/// The lower-case hex digit of a value below 16.
pub open spec fn hex_digit(v: u8) -> char {
    seq!['0', '1', '2', '3', '4', '5', '6', '7', '8', '9', 'a', 'b', 'c', 'd', 'e', 'f'][v as int]
}

/// Two lower-case hex digits per byte, high nibble first.
pub open spec fn hex_text(b: Seq<u8>) -> Seq<char> {
    Seq::new(
        2 * b.len(),
        |i: int|
            if i % 2 == 0 {
                hex_digit(b[i / 2] / 16)
            } else {
                hex_digit(b[i / 2] % 16)
            },
    )
}

/// The value of a hex digit byte, either case.
pub open spec fn hex_value(c: u8) -> Option<u8> {
    if 48 <= c <= 57 {
        Some((c - 48) as u8)
    } else if 97 <= c <= 102 {
        Some((c - 87) as u8)
    } else if 65 <= c <= 70 {
        Some((c - 55) as u8)
    } else {
        None
    }
}

/// Whether `t` is hex text: an even number of hex digit bytes.
pub open spec fn is_hex(t: Seq<u8>) -> bool {
    t.len() % 2 == 0 && forall|i: int| 0 <= i < t.len() ==> (#[trigger] hex_value(t[i])) is Some
}

/// The bytes that hex text stands for.
pub open spec fn hex_bytes(t: Seq<u8>) -> Seq<u8> {
    Seq::new(
        t.len() / 2,
        |i: int| (hex_value(t[2 * i])->0 * 16 + hex_value(t[2 * i + 1])->0) as u8,
    )
}

/// The error of hex::decode, carried through unread.
#[verifier::external_type_specification]
#[verifier::external_body]
pub struct ExFromHexError(hex::FromHexError);

/// Relies on hex::encode: two lower-case digits per byte, high nibble first.
#[verifier::external_body]
pub fn encode_hex(bytes: &[u8]) -> (r: String)
    ensures
        r@ == hex_text(bytes@),
{
    hex::encode(bytes)
}

/// Relies on hex::decode: it succeeds exactly on an even number of digits
/// 0-9, a-f, A-F, and then gives one byte per pair, high nibble first.
#[verifier::external_body]
pub(crate) fn decode_hex_bytes(text: &[u8]) -> (r: Result<Vec<u8>, hex::FromHexError>)
    ensures
        r is Ok <==> is_hex(text@),
        r matches Ok(v) ==> v@ == hex_bytes(text@),
{
    hex::decode(text)
}

/// Decodes hex text (either case, no prefix).
pub fn decode_hex(hex_str: &str) -> (r: Result<Vec<u8>, hex::FromHexError>)
    ensures
        r is Ok <==> is_hex(hex_str.spec_bytes()),
        r matches Ok(v) ==> v@ == hex_bytes(hex_str.spec_bytes()),
{
    decode_hex_bytes(hex_str.as_bytes())
}

} // verus!
