//! Merkle-proof membership verification over hashed whitelist entries.
//!
//! A committed whitelist is a 32-byte Merkle root over the SHA-256 hashes of
//! the whitelisted addresses. A membership proof is an ordered sequence of
//! sibling hashes, hex-encoded; at each step the accumulated hash and the
//! sibling are sorted byte-wise ascending before being concatenated and
//! hashed again, which makes proof construction order-independent. Malformed
//! hex in a proof element or the root is verification failure, never a
//! fatal error.

use vstd::prelude::*;

use sha2::Digest;
use vstd::string::StringSliceAdditionalSpecFns;
use vstd::utf8::encode_utf8;

verus! {

/// The SHA-256 digest of `data`.
///
/// The digest is a pure function of the input bytes; its value is not
/// modelled here.
pub uninterp spec fn sha256_of(data: Seq<u8>) -> Seq<u8>;

/// Relies on sha2's `Sha256`: the digest depends on the input bytes alone,
/// and is always 32 bytes long.
#[verifier::external_body]
fn sha256(data: &[u8]) -> (r: Vec<u8>)
    ensures
        r@ == sha256_of(data@),
        r@.len() == 32,
{
    sha2::Sha256::digest(data).to_vec()
}

/// Is `b` the ASCII code of a hex digit (`0-9`, `a-f`, `A-F`)?
pub open spec fn is_hex_digit_byte(b: u8) -> bool {
    (48 <= b <= 57) || (97 <= b <= 102) || (65 <= b <= 70)
}

/// The value of the hex digit with ASCII code `b`.
pub open spec fn hex_digit_val(b: u8) -> nat {
    if 48 <= b <= 57 {
        (b - 48) as nat
    } else if 97 <= b <= 102 {
        (b - 87) as nat
    } else {
        (b - 55) as nat
    }
}

/// Is `b` a well-formed hex encoding: even length, hex digits throughout?
pub open spec fn hex_bytes_wf(b: Seq<u8>) -> bool {
    b.len() % 2 == 0 && forall|i: int| 0 <= i < b.len() ==> is_hex_digit_byte(#[trigger] b[i])
}

/// The bytes encoded by the well-formed hex encoding `b`.
pub open spec fn hex_decoded(b: Seq<u8>) -> Seq<u8> {
    Seq::new(b.len() / 2, |i: int| (hex_digit_val(b[2 * i]) * 16 + hex_digit_val(b[2 * i + 1])) as u8)
}

/// Relies on hex's `decode`: it succeeds exactly on even-length all-hex
/// input, and then returns one byte per digit pair, high digit first.
#[verifier::external_body]
fn hex_decode(s: &str) -> (r: Option<Vec<u8>>)
    ensures
        (r is Some) == hex_bytes_wf(s.spec_bytes()),
        (match r {
            Some(v) => v@ == hex_decoded(s.spec_bytes()),
            None => true,
        }),
{
    match hex::decode(s) {
        Ok(v) => Some(v),
        Err(_) => None,
    }
}

/// Does the string of characters `s` hex-encode exactly 32 bytes?
pub open spec fn is_hex32(s: Seq<char>) -> bool {
    hex_bytes_wf(encode_utf8(s)) && encode_utf8(s).len() == 64
}

/// The 32 bytes hex-encoded by `s` (meaningful when `is_hex32(s)` holds).
pub open spec fn hex32(s: Seq<char>) -> Seq<u8> {
    hex_decoded(encode_utf8(s))
}

/// Byte-wise lexicographic order on equal-length byte strings.
pub open spec fn lex_leq(a: Seq<u8>, b: Seq<u8>) -> bool
    decreases a.len(),
{
    if a.len() == 0 {
        true
    } else if b.len() == 0 {
        false
    } else if a.first() != b.first() {
        a.first() < b.first()
    } else {
        lex_leq(a.drop_first(), b.drop_first())
    }
}

/// When the first `i` bytes agree, the order is decided by the rest.
proof fn lemma_lex_leq_skip(a: Seq<u8>, b: Seq<u8>, i: int)
    requires
        a.len() == b.len(),
        0 <= i <= a.len(),
        forall|j: int| 0 <= j < i ==> a[j] == b[j],
    ensures
        lex_leq(a, b) == lex_leq(a.skip(i), b.skip(i)),
    decreases i,
{
    if i == 0 {
        assert(a.skip(0) =~= a);
        assert(b.skip(0) =~= b);
    } else {
        assert(a.first() == b.first());
        assert(lex_leq(a, b) == lex_leq(a.drop_first(), b.drop_first()));
        assert(a.drop_first() =~= a.skip(1));
        assert(b.drop_first() =~= b.skip(1));
        lemma_lex_leq_skip(a.skip(1), b.skip(1), i - 1);
        assert(a.skip(1).skip(i - 1) =~= a.skip(i));
        assert(b.skip(1).skip(i - 1) =~= b.skip(i));
    }
}

/// Compare two equal-length byte strings lexicographically.
fn bytes_le(a: &Vec<u8>, b: &Vec<u8>) -> (r: bool)
    requires
        a@.len() == b@.len(),
    ensures
        r == lex_leq(a@, b@),
{
    let n = a.len();
    let mut i: usize = 0;
    while i < n
        invariant
            n == a@.len() == b@.len(),
            i <= n,
            forall|j: int| 0 <= j < i ==> a@[j] == b@[j],
        decreases n - i,
    {
        if a[i] != b[i] {
            proof {
                lemma_lex_leq_skip(a@, b@, i as int);
                assert(a@.skip(i as int).first() == a@[i as int]);
                assert(b@.skip(i as int).first() == b@[i as int]);
            }
            return a[i] < b[i];
        }
        i = i + 1;
    }
    proof {
        lemma_lex_leq_skip(a@, b@, n as int);
        assert(a@.skip(n as int).len() == 0);
    }
    true
}

/// The concatenation `a ++ b`.
fn concat_bytes(a: &Vec<u8>, b: &Vec<u8>) -> (r: Vec<u8>)
    ensures
        r@ == a@ + b@,
{
    let mut r: Vec<u8> = Vec::new();
    let mut i: usize = 0;
    while i < a.len()
        invariant
            i <= a@.len(),
            r@ =~= a@.take(i as int),
        decreases a@.len() - i,
    {
        r.push(a[i]);
        i = i + 1;
    }
    let mut j: usize = 0;
    while j < b.len()
        invariant
            j <= b@.len(),
            r@ =~= a@ + b@.take(j as int),
        decreases b@.len() - j,
    {
        r.push(b[j]);
        j = j + 1;
    }
    proof {
        assert(r@ =~= a@ + b@);
    }
    r
}

/// The hash of an unordered pair: the two halves are sorted byte-wise
/// ascending before concatenation, so the result does not depend on the
/// order in which they are given.
pub open spec fn hash_pair(a: Seq<u8>, b: Seq<u8>) -> Seq<u8> {
    if lex_leq(a, b) {
        sha256_of(a + b)
    } else {
        sha256_of(b + a)
    }
}

fn hash_pair_exec(a: &Vec<u8>, b: &Vec<u8>) -> (r: Vec<u8>)
    requires
        a@.len() == b@.len(),
    ensures
        r@ == hash_pair(a@, b@),
        r@.len() == 32,
{
    let joined = if bytes_le(a, b) {
        concat_bytes(a, b)
    } else {
        concat_bytes(b, a)
    };
    sha256(joined.as_slice())
}

/// The accumulated hash after folding a proof, left to right, onto `h`.
pub open spec fn merkle_fold(h: Seq<u8>, proof: Seq<Seq<u8>>) -> Seq<u8>
    decreases proof.len(),
{
    if proof.len() == 0 {
        h
    } else {
        merkle_fold(hash_pair(h, proof.first()), proof.drop_first())
    }
}

/// The leaf hash of a candidate whitelist entry.
pub open spec fn leaf_hash(candidate: Seq<char>) -> Seq<u8> {
    sha256_of(encode_utf8(candidate))
}

/// The decoded bytes of each proof element.
pub open spec fn proof_bytes(proof: Seq<Seq<char>>) -> Seq<Seq<u8>> {
    proof.map_values(|p: Seq<char>| hex32(p))
}

/// Whether `candidate` is proven to be a leaf under `root`: every hex
/// encoding is well-formed and 32 bytes wide, and folding the proof onto
/// the candidate's leaf hash reproduces the root.
pub open spec fn verify_spec(candidate: Seq<char>, root: Seq<char>, proof: Seq<Seq<char>>) -> bool {
    &&& is_hex32(root)
    &&& (forall|i: int| 0 <= i < proof.len() ==> is_hex32(#[trigger] proof[i]))
    &&& merkle_fold(leaf_hash(candidate), proof_bytes(proof)) == hex32(root)
}

/// Compare two byte vectors for equality.
fn bytes_eq(a: &Vec<u8>, b: &Vec<u8>) -> (r: bool)
    ensures
        r == (a@ == b@),
{
    if a.len() != b.len() {
        return false;
    }
    let n = a.len();
    let mut i: usize = 0;
    while i < n
        invariant
            n == a@.len() == b@.len(),
            i <= n,
            forall|j: int| 0 <= j < i ==> a@[j] == b@[j],
        decreases n - i,
    {
        if a[i] != b[i] {
            return false;
        }
        i = i + 1;
    }
    proof {
        assert(a@ =~= b@);
    }
    true
}

/// Verify a Merkle membership proof.
///
/// Returns exactly `verify_spec`: `true` iff the root and every proof
/// element are well-formed 32-byte hex encodings and the sorted-pair fold
/// of the proof onto `SHA-256(user_input)` equals the decoded root.
pub fn verify_merkle_proof(user_input: &String, merkle_root: &String, proof: &Vec<String>) -> (r:
    bool)
    ensures
        r == verify_spec(user_input@, merkle_root@, proof.deep_view()),
{
    let root_bytes = match hex_decode(merkle_root.as_str()) {
        Some(v) => v,
        None => {
            return false;
        },
    };
    if root_bytes.len() != 32 {
        return false;
    }
    let mut hash = sha256(user_input.as_str().as_bytes());
    let ghost dv = proof.deep_view();
    let ghost pb = proof_bytes(dv);
    let n = proof.len();
    proof {
        assert(pb.skip(0) =~= pb);
    }
    let mut i: usize = 0;
    while i < n
        invariant
            n == proof@.len(),
            dv == proof.deep_view(),
            pb == proof_bytes(dv),
            i <= n,
            forall|j: int| 0 <= j < i ==> is_hex32(#[trigger] dv[j]),
            hash@.len() == 32,
            merkle_fold(hash@, pb.skip(i as int)) == merkle_fold(leaf_hash(user_input@), pb),
        decreases n - i,
    {
        proof {
            assert(dv[i as int] == proof@[i as int]@);
        }
        let pb_i = match hex_decode(proof[i].as_str()) {
            Some(v) => v,
            None => {
                proof {
                    assert(!is_hex32(dv[i as int]));
                }
                return false;
            },
        };
        if pb_i.len() != 32 {
            proof {
                assert(!is_hex32(dv[i as int]));
            }
            return false;
        }
        proof {
            assert(pb_i@ == pb[i as int]);
            assert(pb.skip(i as int).first() == pb[i as int]);
            assert(pb.skip(i as int).drop_first() =~= pb.skip(i as int + 1));
        }
        hash = hash_pair_exec(&hash, &pb_i);
        i = i + 1;
    }
    proof {
        assert(pb.skip(n as int).len() == 0);
        assert(merkle_fold(hash@, pb.skip(n as int)) == hash@);
    }
    bytes_eq(&hash, &root_bytes)
}

/// Merkle round-trip, completeness half: a genuine path verifies. Whenever
/// the root and the proof elements are well-formed hex encodings of 32
/// bytes each, and the sorted-pair fold of the proof onto the candidate's
/// leaf hash reproduces the root, verification succeeds. (The converse —
/// that a candidate outside the committed set verifies only with negligible
/// probability — is a property of SHA-256 collision resistance, outside
/// this model.)
pub proof fn lemma_verify_complete(candidate: Seq<char>, root: Seq<char>, proof: Seq<Seq<char>>)
    requires
        is_hex32(root),
        forall|i: int| 0 <= i < proof.len() ==> is_hex32(#[trigger] proof[i]),
        merkle_fold(leaf_hash(candidate), proof_bytes(proof)) == hex32(root),
    ensures
        verify_spec(candidate, root, proof),
{
}

} // verus!
