use yotquitas::block::BlockHeader;
use yotquitas::crypto::hash_eq;
use yotquitas::{
    compute_merkle_root, decode_hex, double_sha256, encode_hex, generate_keypair, sha256, sign,
    verify, Block, SigningKey, Transaction, TransactionPayload,
};

fn transfer(to: [u8; 32], amount: u64) -> TransactionPayload {
    TransactionPayload::Transfer { to, amount }
}

#[test]
fn test_block_header_creation() {
    let prev_hash = [1u8; 32];
    let header = BlockHeader::new(0, 1000, prev_hash);

    assert_eq!(header.index, 0);
    assert_eq!(header.timestamp, 1000);
    assert_eq!(header.previous_hash, prev_hash);
}

#[test]
fn test_block_header_hash() {
    let header1 = BlockHeader::new(0, 1000, [0u8; 32]);
    let header2 = BlockHeader::new(0, 1000, [0u8; 32]);

    assert_eq!(header1.hash(), header2.hash());

    let header3 = BlockHeader::new(1, 1000, [0u8; 32]);
    assert_ne!(header1.hash(), header3.hash());
}

#[test]
fn test_block_creation() {
    let (_, pubkey) = generate_keypair();
    let tx = Transaction::new(pubkey, transfer([0u8; 32], 100), 1, 0);

    let header = BlockHeader::new(0, 1000, [0u8; 32]);
    let block = Block::new(header, vec![tx]);

    assert_eq!(block.transactions.len(), 1);
    assert_ne!(block.header.merkle_root, [0u8; 32]);
}

#[test]
fn test_merkle_root_empty() {
    let root = compute_merkle_root(&[]);
    assert_eq!(root, [0u8; 32]);
}

#[test]
fn test_merkle_root_single() {
    let (_, pubkey) = generate_keypair();
    let tx = Transaction::new(pubkey, transfer([0u8; 32], 100), 1, 0);

    let root = compute_merkle_root(&[tx.clone()]);
    assert_eq!(root, tx.hash());
}

#[test]
fn test_merkle_root_multiple() {
    let (_, pubkey) = generate_keypair();
    let tx1 = Transaction::new(pubkey, transfer([0u8; 32], 100), 1, 0);
    let tx2 = Transaction::new(pubkey, transfer([1u8; 32], 200), 1, 1);

    let root = compute_merkle_root(&[tx1.clone(), tx2.clone()]);
    let root2 = compute_merkle_root(&[tx1, tx2]);
    assert_eq!(root, root2);
}

#[test]
fn test_block_verification() {
    let (signing_key, pubkey) = generate_keypair();
    let tx = Transaction::new(pubkey, transfer([0u8; 32], 100), 1, 0).sign(&signing_key);

    let header = BlockHeader::new(0, 1000, [0u8; 32]);
    let block = Block::new(header, vec![tx]);

    assert!(block.verify());
}

#[test]
fn test_sha256() {
    let data = b"hello world";
    let hash = sha256(data);
    assert_eq!(hash.len(), 32);

    let hash2 = sha256(data);
    assert_eq!(hash, hash2);
}

#[test]
fn test_double_sha256() {
    let data = b"test";
    let hash1 = sha256(data);
    let hash2 = double_sha256(data);
    assert_ne!(hash1, hash2);
}

#[test]
fn test_keypair_generation() {
    let (signing_key, verifying_key) = generate_keypair();
    assert_eq!(signing_key.verifying_key(), verifying_key);
}

#[test]
fn test_sign_verify() {
    let (signing_key, verifying_key) = generate_keypair();
    let data = b"test message";

    let signature = sign(&signing_key, data);
    assert!(verify(&verifying_key, data, &signature));

    let wrong_data = b"wrong message";
    assert!(!verify(&verifying_key, wrong_data, &signature));
}

#[test]
fn test_hex_encoding() {
    let data = b"hello";
    let encoded = encode_hex(data);
    assert_eq!(encoded, "68656c6c6f");

    let decoded = decode_hex(&encoded).unwrap();
    assert_eq!(decoded, data);
}

#[test]
fn test_transaction_creation() {
    let (_, pubkey) = generate_keypair();
    let payload = transfer([0u8; 32], 100);

    let tx = Transaction::new(pubkey, payload, 1, 0);
    assert_eq!(tx.fee, 1);
    assert_eq!(tx.nonce, 0);
    assert!(tx.signature.is_none());
}

#[test]
fn test_transaction_signing() {
    let (signing_key, pubkey) = generate_keypair();
    let payload = transfer([0u8; 32], 100);

    let tx = Transaction::new(pubkey, payload, 1, 0);
    let signed_tx = tx.sign(&signing_key);

    assert!(signed_tx.signature.is_some());
    assert!(signed_tx.verify());
}

#[test]
fn test_transaction_verification() {
    let (signing_key, pubkey) = generate_keypair();
    let (_, wrong_pubkey) = generate_keypair();

    let payload = transfer([0u8; 32], 100);

    let tx = Transaction::new(pubkey, payload, 1, 0);
    let signed_tx = tx.sign(&signing_key);

    assert!(signed_tx.verify());

    let mut wrong_tx = signed_tx.clone();
    wrong_tx.sender_pubkey = wrong_pubkey;
    assert!(!wrong_tx.verify());
}

#[test]
fn test_transaction_hash() {
    let (_, pubkey) = generate_keypair();
    let payload = transfer([0u8; 32], 100);

    let tx1 = Transaction::new(pubkey, payload.clone(), 1, 0);
    let tx2 = Transaction::new(pubkey, payload, 1, 0);

    assert_eq!(tx1.hash(), tx2.hash());

    let tx3 = Transaction::new(pubkey, transfer([0u8; 32], 100), 1, 1);
    assert_ne!(tx1.hash(), tx3.hash());
}

// Digests and hex text on known values.

#[test]
fn sha256_known_value() {
    let hash = sha256(b"hello world");
    assert_eq!(
        encode_hex(&hash),
        "b94d27b9934d3e08a52e52d7da7dabfac484efe37a5380ee9088f7ace2efcde9"
    );
}

#[test]
fn ed25519_known_vector() {
    // RFC 8032, section 7.1, test 1: the empty message.
    let secret: Vec<u8> =
        decode_hex("9d61b19deffd5a60ba844af492ec2cc44449c5697b326919703bac031cae7f60").unwrap();
    let key = SigningKey::from_bytes(&secret.try_into().unwrap());
    let public = key.verifying_key();
    assert_eq!(
        encode_hex(&public),
        "d75a980182b10ab7d54bfed3c964073a0ee172f3daa62325af021a68f707511a"
    );
    let signature = sign(&key, b"");
    assert_eq!(
        encode_hex(&signature),
        "e5564300c360ac729086e2cc806e828a84877f1eb8e5d974d873e065224901555fb8821590a33bacc61e39701cf9b46bd25bf5f0595bbe24655141438e7a100b"
    );
    assert!(verify(&public, b"", &signature));
    let mut bent = signature;
    bent[0] ^= 1;
    assert!(!verify(&public, b"", &bent));
}

#[test]
fn double_sha256_is_hash_of_hash() {
    let once = sha256(b"abc");
    assert_eq!(double_sha256(b"abc"), sha256(&once));
}

#[test]
fn hex_decode_accepts_upper_case_and_rejects_bad_text() {
    assert_eq!(decode_hex("0AfF").unwrap(), vec![0x0a, 0xff]);
    assert!(decode_hex("abc").is_err());
    assert!(decode_hex("zz").is_err());
    assert_eq!(decode_hex("").unwrap(), Vec::<u8>::new());
}

#[test]
fn hash_eq_compares_every_byte() {
    let a = [7u8; 32];
    let mut b = [7u8; 32];
    assert!(hash_eq(&a, &b));
    b[31] = 8;
    assert!(!hash_eq(&a, &b));
}

// Signing and verification.

#[test]
fn signing_twice_gives_the_same_signature() {
    let (key, pubkey) = generate_keypair();
    let tx = Transaction::new(pubkey, transfer([3u8; 32], 5), 2, 0);
    let a = tx.clone().sign(&key);
    let b = tx.sign(&key);
    assert_eq!(a.signature, b.signature);
}

#[test]
fn altered_fields_break_the_signature() {
    let (key, pubkey) = generate_keypair();
    let signed = Transaction::new(pubkey, transfer([3u8; 32], 5), 2, 0).sign(&key);
    assert!(signed.verify());

    let mut fee = signed.clone();
    fee.fee = 3;
    assert!(!fee.verify());

    let mut nonce = signed.clone();
    nonce.nonce = 1;
    assert!(!nonce.verify());

    let mut payload = signed.clone();
    payload.payload = transfer([3u8; 32], 6);
    assert!(!payload.verify());
}

#[test]
fn a_different_key_does_not_verify() {
    let (key, pubkey) = generate_keypair();
    let (other_key, _) = generate_keypair();
    let tx = Transaction::new(pubkey, transfer([0u8; 32], 1), 1, 0).sign(&other_key);
    assert!(!tx.verify());
    let good = Transaction::new(pubkey, transfer([0u8; 32], 1), 1, 0).sign(&key);
    assert!(good.verify());
}

#[test]
fn unsigned_transaction_never_verifies() {
    let (_, pubkey) = generate_keypair();
    let tx = Transaction::new(pubkey, transfer([0u8; 32], 1), 1, 0);
    assert!(!tx.verify());
}

#[test]
fn a_malformed_public_key_does_not_verify() {
    let (key, _) = generate_keypair();
    // Not the encoding of a curve point.
    let bad = [0xffu8; 32];
    let tx = Transaction::new(bad, transfer([0u8; 32], 1), 1, 0).sign(&key);
    assert!(!tx.verify());
}

#[test]
fn signature_is_part_of_identity() {
    let (key, pubkey) = generate_keypair();
    let tx = Transaction::new(pubkey, transfer([0u8; 32], 1), 1, 0);
    let signed = tx.clone().sign(&key);
    assert_ne!(tx.hash(), signed.hash());
}

#[test]
fn sender_address_is_digest_of_key() {
    let (_, pubkey) = generate_keypair();
    let tx = Transaction::new(pubkey, transfer([0u8; 32], 1), 1, 0);
    assert_eq!(tx.sender_address(), sha256(&pubkey));
}

#[test]
fn other_payloads_sign_and_verify() {
    let (key, pubkey) = generate_keypair();
    let call = TransactionPayload::MoveCall {
        module: "coin".to_string(),
        function: "mint".to_string(),
        args: vec![1, 2, 3],
    };
    let deploy = TransactionPayload::DeployModule { bytecode: vec![9, 9] };
    let a = Transaction::new(pubkey, call, 1, 0).sign(&key);
    let b = Transaction::new(pubkey, deploy, 1, 0).sign(&key);
    assert!(a.verify());
    assert!(b.verify());
    assert_ne!(a.hash(), b.hash());
}

#[test]
fn signing_bytes_exact_layout() {
    let tx = Transaction::new([5u8; 32], transfer([6u8; 32], 0x0102), 3, 4);
    let bytes = tx.to_bytes_for_signing();
    let mut expected = vec![5u8; 32];
    expected.push(1);
    expected.extend_from_slice(&[6u8; 32]);
    expected.extend_from_slice(&[2, 1, 0, 0, 0, 0, 0, 0]);
    expected.extend_from_slice(&[3, 0, 0, 0, 0, 0, 0, 0]);
    expected.extend_from_slice(&[4, 0, 0, 0, 0, 0, 0, 0]);
    assert_eq!(bytes, expected);
    let mut full = expected.clone();
    full.push(0);
    assert_eq!(tx.to_bytes(), full);
    assert_eq!(tx.hash(), sha256(&full));
}

// Merkle commitment.

fn pair(a: &[u8; 32], b: &[u8; 32]) -> [u8; 32] {
    let mut bytes = a.to_vec();
    bytes.extend_from_slice(b);
    double_sha256(&bytes)
}

fn three_transactions() -> (Transaction, Transaction, Transaction) {
    let (_, pubkey) = generate_keypair();
    (
        Transaction::new(pubkey, transfer([0u8; 32], 1), 1, 0),
        Transaction::new(pubkey, transfer([0u8; 32], 2), 1, 1),
        Transaction::new(pubkey, transfer([0u8; 32], 3), 1, 2),
    )
}

#[test]
fn merkle_root_of_two_is_node_of_leaves() {
    let (a, b, _) = three_transactions();
    let root = compute_merkle_root(&[a.clone(), b.clone()]);
    assert_eq!(root, pair(&a.hash(), &b.hash()));
}

#[test]
fn merkle_root_of_three_duplicates_last_leaf() {
    let (a, b, c) = three_transactions();
    let root = compute_merkle_root(&[a.clone(), b.clone(), c.clone()]);
    let left = pair(&a.hash(), &b.hash());
    let right = pair(&c.hash(), &c.hash());
    assert_eq!(root, pair(&left, &right));
    // Promoting the odd leaf unchanged would give another root.
    assert_ne!(root, pair(&left, &c.hash()));
}

#[test]
fn merkle_root_of_five() {
    let (_, pubkey) = generate_keypair();
    let txs: Vec<Transaction> =
        (0..5).map(|n| Transaction::new(pubkey, transfer([0u8; 32], n), 1, n)).collect();
    let h: Vec<[u8; 32]> = txs.iter().map(|t| t.hash()).collect();
    let l1 = [pair(&h[0], &h[1]), pair(&h[2], &h[3]), pair(&h[4], &h[4])];
    let l2 = [pair(&l1[0], &l1[1]), pair(&l1[2], &l1[2])];
    assert_eq!(compute_merkle_root(&txs), pair(&l2[0], &l2[1]));
}

#[test]
fn reordering_changes_the_root() {
    let (a, b, c) = three_transactions();
    let root = compute_merkle_root(&[a.clone(), b.clone(), c.clone()]);
    assert_ne!(root, compute_merkle_root(&[b.clone(), a.clone(), c.clone()]));
    assert_ne!(root, compute_merkle_root(&[a, c, b]));
}

#[test]
fn merkle_root_is_deterministic() {
    let (a, b, c) = three_transactions();
    let txs = [a, b, c];
    assert_eq!(compute_merkle_root(&txs), compute_merkle_root(&txs));
}

// Blocks.

#[test]
fn tampered_blocks_fail_verification() {
    let (key, pubkey) = generate_keypair();
    let t1 = Transaction::new(pubkey, transfer([0u8; 32], 1), 1, 0).sign(&key);
    let t2 = Transaction::new(pubkey, transfer([0u8; 32], 2), 1, 1).sign(&key);
    let block = Block::new(BlockHeader::new(1, 5, [2u8; 32]), vec![t1, t2]);
    assert!(block.verify());

    let mut bad_root = block.clone();
    bad_root.header.merkle_root[0] ^= 1;
    assert!(!bad_root.verify());

    let mut bad_tx = block.clone();
    bad_tx.transactions[1].signature = None;
    assert!(!bad_tx.verify());

    let mut altered_fee = block.clone();
    altered_fee.transactions[0].fee = 9;
    assert!(!altered_fee.verify());
}

#[test]
fn block_new_overwrites_supplied_root() {
    let mut header = BlockHeader::new(0, 1, [0u8; 32]);
    header.merkle_root = [9u8; 32];
    let block = Block::new(header, vec![]);
    assert_eq!(block.header.merkle_root, [0u8; 32]);
    assert!(block.verify());
    assert_eq!(block.hash(), block.header.hash());
    assert_eq!(block.index(), 0);
    assert_eq!(block.previous_hash(), [0u8; 32]);
}

#[test]
fn header_hash_covers_fixed_layout() {
    let header = BlockHeader::new(1, 2, [3u8; 32]);
    let mut bytes = vec![1, 0, 0, 0, 0, 0, 0, 0, 2, 0, 0, 0, 0, 0, 0, 0];
    bytes.extend_from_slice(&[3u8; 32]);
    bytes.extend_from_slice(&[0u8; 32]);
    assert_eq!(header.to_bytes(), bytes);
    assert_eq!(header.hash(), double_sha256(&bytes));
}

#[test]
fn block_bytes_frame_each_transaction() {
    let tx = Transaction::new([5u8; 32], transfer([6u8; 32], 1), 1, 0);
    let block = Block::new(BlockHeader::new(0, 0, [0u8; 32]), vec![tx.clone()]);
    let mut expected = block.header.to_bytes();
    expected.extend_from_slice(&[1, 0, 0, 0, 0, 0, 0, 0]);
    let enc = tx.to_bytes();
    expected.extend_from_slice(&(enc.len() as u64).to_le_bytes());
    expected.extend_from_slice(&enc);
    assert_eq!(block.to_bytes(), expected);
}
