use launchpad::merkle::verify_merkle_proof;
use sha2::Digest;

fn sha(data: &[u8]) -> [u8; 32] {
    let mut out = [0u8; 32];
    out.copy_from_slice(sha2::Sha256::digest(data).as_slice());
    out
}

fn parent(a: [u8; 32], b: [u8; 32]) -> [u8; 32] {
    let mut pair = [a, b];
    pair.sort_unstable();
    let mut joined = Vec::new();
    joined.extend_from_slice(&pair[0]);
    joined.extend_from_slice(&pair[1]);
    sha(&joined)
}

#[test]
fn merkle_round_trip_two_leaves() {
    let leaf_alice = sha(b"alice");
    let leaf_bob = sha(b"bob");
    let root = hex::encode(parent(leaf_alice, leaf_bob));
    let proof_alice = vec![hex::encode(leaf_bob)];
    assert!(verify_merkle_proof(&"alice".to_string(), &root, &proof_alice));
    let proof_bob = vec![hex::encode(leaf_alice)];
    assert!(verify_merkle_proof(&"bob".to_string(), &root, &proof_bob));
}

#[test]
fn merkle_round_trip_four_leaves() {
    let leaves: Vec<[u8; 32]> = ["a1", "b2", "c3", "d4"]
        .iter()
        .map(|s| sha(s.as_bytes()))
        .collect();
    let p_ab = parent(leaves[0], leaves[1]);
    let p_cd = parent(leaves[2], leaves[3]);
    let root = hex::encode(parent(p_ab, p_cd));
    // genuine path for "a1": sibling leaf, then sibling subtree
    let proof = vec![hex::encode(leaves[1]), hex::encode(p_cd)];
    assert!(verify_merkle_proof(&"a1".to_string(), &root, &proof));
    // genuine path for "d4"
    let proof_d = vec![hex::encode(leaves[2]), hex::encode(p_ab)];
    assert!(verify_merkle_proof(&"d4".to_string(), &root, &proof_d));
}

#[test]
fn merkle_rejects_non_member() {
    let leaf_alice = sha(b"alice");
    let leaf_bob = sha(b"bob");
    let root = hex::encode(parent(leaf_alice, leaf_bob));
    // a non-member with a syntactically valid proof
    let proof = vec![hex::encode(leaf_bob)];
    assert!(!verify_merkle_proof(&"mallory".to_string(), &root, &proof));
    // a member with the wrong sibling
    let proof_wrong = vec![hex::encode(leaf_alice)];
    assert!(!verify_merkle_proof(&"alice".to_string(), &root, &proof_wrong));
}

#[test]
fn merkle_rejects_malformed_hex() {
    let leaf_alice = sha(b"alice");
    let leaf_bob = sha(b"bob");
    let root = hex::encode(parent(leaf_alice, leaf_bob));
    // malformed proof element: not hex
    let proof_bad = vec!["zz".repeat(32)];
    assert!(!verify_merkle_proof(&"alice".to_string(), &root, &proof_bad));
    // proof element of the wrong length
    let proof_short = vec![hex::encode([0u8; 16])];
    assert!(!verify_merkle_proof(&"alice".to_string(), &root, &proof_short));
    // malformed root: odd length
    let bad_root = "abc".to_string();
    let proof = vec![hex::encode(leaf_bob)];
    assert!(!verify_merkle_proof(&"alice".to_string(), &bad_root, &proof));
}

#[test]
fn merkle_empty_proof_matches_single_leaf_root() {
    // with an empty proof the folded hash is the leaf itself
    let root = hex::encode(sha(b"solo"));
    assert!(verify_merkle_proof(&"solo".to_string(), &root, &Vec::new()));
    assert!(!verify_merkle_proof(&"other".to_string(), &root, &Vec::new()));
}
