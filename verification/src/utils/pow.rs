//! Proof-of-work verification.
//!
//! A solution is valid for a challenge when the SHA-256 digest of the
//! decoded challenge bytes followed by the decoded solution bytes, read
//! as lowercase hex, starts with at least `difficulty` zero digits.
//! Difficulty is counted in hex digits (4 bits each); difficulty 0
//! accepts every well-formed input.

use vstd::prelude::*;

use crate::utils::hex::hex_decode;
use crate::utils::hex::hex_decode_spec;
use crate::utils::hex::hex_encode;
use crate::utils::hex::hex_encode_spec;
use crate::utils::hex::is_hex_seq;

verus! {

/// The SHA-256 digest of a byte string. The digest is a function of the
/// input alone; its value is only ever produced by the trusted wrapper
/// below, never stated here.
pub uninterp spec fn sha256_of(data: Seq<u8>) -> Seq<u8>;

/// Relies on orion's `Sha256::digest`: a 32-byte digest computed from
/// the input bytes alone. orion errors only on inputs beyond the
/// hash's length limit or on misuse of its streaming state; one
/// digest of a slice reaches neither.
#[verifier::external_body]
fn sha256(data: &Vec<u8>) -> (r: Vec<u8>)
    ensures
        r@ == sha256_of(data@),
        r@.len() == 32,
{
    let digest = orion::hazardous::hash::sha2::sha256::Sha256::digest(data)
        .expect("hashing a slice cannot exceed the input limit");
    digest.as_ref().to_vec()
}

/// Whether the first `difficulty` digits of `h` (all of `h`, if it is
/// shorter) are `'0'`.
pub open spec fn leading_zeros_ok(h: Seq<char>, difficulty: u64) -> bool {
    forall|i: int| 0 <= i < difficulty && i < h.len() ==> h[i] == '0'
}

/// What the proof-of-work check accepts: challenge and solution are
/// well-formed hex, and the hex form of the digest of their concatenated
/// bytes meets the difficulty target.
pub open spec fn pow_meets(challenge: Seq<char>, solution: Seq<char>, difficulty: u64) -> bool {
    &&& is_hex_seq(challenge)
    &&& is_hex_seq(solution)
    &&& leading_zeros_ok(
        hex_encode_spec(sha256_of(hex_decode_spec(challenge) + hex_decode_spec(solution))),
        difficulty,
    )
}

/// Checks a proof of work; fails closed on malformed hex input.
pub fn is_valid_proof_of_work(challenge: &String, solution: &String, difficulty: u64) -> (r: bool)
    ensures
        r == pow_meets(challenge@, solution@, difficulty),
{
    let mut decoded_challenge = match hex_decode(challenge.as_str()) {
        Some(c) => c,
        None => {
            return false;
        },
    };
    let mut decoded_solution = match hex_decode(solution.as_str()) {
        Some(s) => s,
        None => {
            return false;
        },
    };
    decoded_challenge.append(&mut decoded_solution);
    let hash = sha256(&decoded_challenge);
    let hash_hex = hex_encode(&hash);
    let h = hash_hex.as_str();
    let hl = h.unicode_len();
    let mut i: usize = 0;
    while i < hl && (i as u64) < difficulty
        invariant
            i <= hl,
            hl == h@.len(),
            h@ == hex_encode_spec(
                sha256_of(hex_decode_spec(challenge@) + hex_decode_spec(solution@)),
            ),
            is_hex_seq(challenge@),
            is_hex_seq(solution@),
            forall|j: int| 0 <= j < i ==> h@[j] == '0',
        decreases hl - i,
    {
        if h.get_char(i) != '0' {
            return false;
        }
        i = i + 1;
    }
    true
}

/// Law: zero difficulty accepts every well-formed hex (challenge,
/// solution) pair.
pub proof fn lemma_zero_difficulty_accepts(challenge: Seq<char>, solution: Seq<char>)
    requires
        is_hex_seq(challenge),
        is_hex_seq(solution),
    ensures
        pow_meets(challenge, solution, 0),
{
}

/// Law: when the digest of the concatenated bytes does not meet the
/// difficulty target, the proof of work is rejected.
pub proof fn lemma_short_digest_rejected(challenge: Seq<char>, solution: Seq<char>, difficulty: u64)
    requires
        !leading_zeros_ok(
            hex_encode_spec(sha256_of(hex_decode_spec(challenge) + hex_decode_spec(solution))),
            difficulty,
        ),
    ensures
        !pow_meets(challenge, solution, difficulty),
{
}

} // verus!
