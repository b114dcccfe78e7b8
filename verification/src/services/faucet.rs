//! Challenge generation and keyed-tag authentication.
//!
//! The tag is the server's only proof that a challenge was issued by
//! itself: it is a keyed BLAKE2b-256 tag over the challenge bytes,
//! computed and verified through orion. Challenges come from a ChaCha20
//! generator seeded from the operating system.

use vstd::prelude::*;
use vstd::utf8::encode_utf8;

use crate::entity::faucet::Faucet;
use crate::error::api::ApiError;
use crate::utils::hex::hex_decode;
use crate::utils::hex::hex_decode_spec;
use crate::utils::hex::hex_encode_spec;
use crate::utils::hex::is_hex_seq;
use crate::utils::hex::lemma_hex_round_trip;
use crate::utils::pow::is_valid_proof_of_work;
use crate::utils::pow::pow_meets;

verus! {

/// The keyed BLAKE2b-256 authentication tag of a message. The tag is a
/// function of the key and message bytes alone; its value is only ever
/// produced by the trusted wrappers below, never stated here.
pub uninterp spec fn mac_of(key: Seq<u8>, msg: Seq<u8>) -> Seq<u8>;

/// The bytes a key string is fed to the authenticator as.
pub open spec fn key_bytes(key: Seq<char>) -> Seq<u8> {
    encode_utf8(key)
}

/// Relies on orion's `auth::authenticate` (BLAKE2b-256 in keyed mode):
/// the 32-byte tag is a function of the key and message bytes alone.
/// orion rejects keys shorter than 32 or longer than 64 bytes, so
/// `requires` keeps those out and the call cannot fail.
#[verifier::external_body]
fn auth_sign(key: &[u8], msg: &Vec<u8>) -> (r: Vec<u8>)
    requires
        32 <= key@.len() <= 64,
    ensures
        r@ == mac_of(key@, msg@),
        r@.len() == 32,
{
    let secret = orion::auth::SecretKey::from_slice(key).expect("key length was checked");
    let tag = orion::auth::authenticate(&secret, msg).expect("key length was checked");
    tag.unprotected_as_bytes().to_vec()
}

/// Relies on orion's `auth::authenticate_verify`: it succeeds exactly
/// when the key has an accepted length, the expected tag is 32 bytes,
/// and it equals the keyed BLAKE2b-256 tag of the message. orion
/// compares the tags in constant time.
#[verifier::external_body]
fn auth_verify(expected: &Vec<u8>, key: &[u8], msg: &Vec<u8>) -> (r: bool)
    ensures
        r == (32 <= key@.len() <= 64 && expected@.len() == 32 && expected@ == mac_of(key@, msg@)),
{
    let secret = match orion::auth::SecretKey::from_slice(key) {
        Ok(secret) => secret,
        Err(_) => return false,
    };
    let tag = match orion::auth::Tag::from_slice(expected) {
        Ok(tag) => tag,
        Err(_) => return false,
    };
    orion::auth::authenticate_verify(&tag, &secret, msg).is_ok()
}

/// What tag verification accepts: well-formed hex challenge and tag, a
/// 32-byte decoded tag, and a tag equal to the keyed tag of the decoded
/// challenge bytes.
pub open spec fn tag_ok(key: Seq<u8>, challenge: Seq<char>, tag: Seq<char>) -> bool {
    &&& 32 <= key.len() <= 64
    &&& is_hex_seq(challenge)
    &&& is_hex_seq(tag)
    &&& hex_decode_spec(tag).len() == 32
    &&& hex_decode_spec(tag) == mac_of(key, hex_decode_spec(challenge))
}

/// The challenge generator's state: a reseeding ChaCha20 generator.
/// Verus refuses the declaration of `ReseedingRng` (its bounds name
/// outside traits), so the generator lives in a field this struct hides.
#[verifier::external_body]
pub struct RndGen {
    r: rand::rngs::adapter::ReseedingRng<rand_chacha::ChaCha20Core, rand::rngs::OsRng>,
}

/// Relies on `ChaCha20Core::from_entropy` and `ReseedingRng::new`: a
/// ChaCha20 generator seeded from the operating system that reseeds
/// itself from it. Nothing is promised of the values it will produce.
#[verifier::external_body]
fn fresh_rnd_gen() -> RndGen {
    let prng = <rand_chacha::ChaCha20Core as rand::SeedableRng>::from_entropy();
    RndGen { r: rand::rngs::adapter::ReseedingRng::new(prng, 0, rand::rngs::OsRng) }
}

/// Relies on `RngCore::next_u64` of the reseeding ChaCha20 generator: a
/// random word. Nothing is promised of its value.
#[verifier::external_body]
fn rng_next_u64(r: &mut RndGen) -> u64 {
    rand::RngCore::next_u64(&mut r.r)
}

/// The big-endian bytes of a 64-bit word.
fn u64_to_be_bytes(x: u64) -> (r: Vec<u8>)
    ensures
        r@ == seq![
            (x >> 56) as u8,
            (x >> 48) as u8,
            (x >> 40) as u8,
            (x >> 32) as u8,
            (x >> 24) as u8,
            (x >> 16) as u8,
            (x >> 8) as u8,
            x as u8,
        ],
{
    let mut r: Vec<u8> = Vec::new();
    r.push(#[verifier::truncate] ((x >> 56) as u8));
    r.push(#[verifier::truncate] ((x >> 48) as u8));
    r.push(#[verifier::truncate] ((x >> 40) as u8));
    r.push(#[verifier::truncate] ((x >> 32) as u8));
    r.push(#[verifier::truncate] ((x >> 24) as u8));
    r.push(#[verifier::truncate] ((x >> 16) as u8));
    r.push(#[verifier::truncate] ((x >> 8) as u8));
    r.push(#[verifier::truncate] (x as u8));
    proof {
        assert(r@ =~= seq![
            (x >> 56) as u8,
            (x >> 48) as u8,
            (x >> 40) as u8,
            (x >> 32) as u8,
            (x >> 24) as u8,
            (x >> 16) as u8,
            (x >> 8) as u8,
            x as u8,
        ]);
    }
    r
}

impl Default for RndGen {
    /// A generator seeded from the operating system.
    fn default() -> Self {
        fresh_rnd_gen()
    }
}

impl RndGen {
    /// Draws a fresh 16-byte challenge: two random words, big-endian.
    pub fn generate(&mut self) -> (r: Vec<u8>)
        ensures
            r@.len() == 16,
    {
        let random_one = rng_next_u64(self);
        let random_two = rng_next_u64(self);
        let mut out = u64_to_be_bytes(random_one);
        let mut second = u64_to_be_bytes(random_two);
        out.append(&mut second);
        out
    }
}

/// Issues challenges and signs and verifies their tags.
pub struct FaucetService {
    r: RndGen,
}

impl FaucetService {
    /// A service with a freshly seeded challenge generator.
    pub fn new() -> Self {
        Self { r: RndGen::default() }
    }

    /// Issues a fresh 16-byte challenge together with its keyed tag.
    pub fn generate_faucet_request(&mut self, auth_key: String) -> (r: Result<Faucet, ApiError>)
        requires
            32 <= key_bytes(auth_key@).len() <= 64,
        ensures
            r matches Ok(f) && f.challenge@.len() == 16 && f.tag@.len() == 32 && f.tag@ == mac_of(
                key_bytes(auth_key@),
                f.challenge@,
            ) && f.solution is None,
    {
        let challenge = self.r.generate();
        let tag = self.compute_tag(&auth_key, &challenge);
        Ok(Faucet::request(challenge, tag))
    }

    /// The keyed tag over freshly issued challenge bytes.
    fn compute_tag(&self, auth_key: &String, challenge: &Vec<u8>) -> (r: Vec<u8>)
        requires
            32 <= key_bytes(auth_key@).len() <= 64,
        ensures
            r@ == mac_of(key_bytes(auth_key@), challenge@),
            r@.len() == 32,
    {
        auth_sign(auth_key.as_str().as_bytes(), challenge)
    }

    /// Verifies a hex-encoded tag against a hex-encoded challenge under
    /// the server's key; false on any malformed input.
    pub fn verify_tag(&self, auth_key: &String, challenge: &String, tag: &String) -> (r: bool)
        ensures
            r == tag_ok(key_bytes(auth_key@), challenge@, tag@),
    {
        let decoded_tag = match hex_decode(tag.as_str()) {
            Some(t) => t,
            None => {
                return false;
            },
        };
        let decoded_challenge = match hex_decode(challenge.as_str()) {
            Some(c) => c,
            None => {
                return false;
            },
        };
        auth_verify(&decoded_tag, auth_key.as_str().as_bytes(), &decoded_challenge)
    }

    /// Checks a proof of work for a challenge at the given difficulty.
    pub fn verify_pow(&self, challenge: &String, solution: &String, difficulty: u64) -> (r: bool)
        ensures
            r == pow_meets(challenge@, solution@, difficulty),
    {
        is_valid_proof_of_work(challenge, solution, difficulty)
    }
}

/// Law (sign/verify round trip): a tag signed under a key verifies under
/// the same key once both the challenge bytes and the tag are sent as
/// hex. The tag length premise is what the signing wrapper ensures of
/// every tag it returns.
pub proof fn lemma_tag_round_trip(key: Seq<u8>, challenge: Seq<u8>)
    requires
        32 <= key.len() <= 64,
        mac_of(key, challenge).len() == 32,
    ensures
        tag_ok(key, hex_encode_spec(challenge), hex_encode_spec(mac_of(key, challenge))),
{
    lemma_hex_round_trip(challenge);
    lemma_hex_round_trip(mac_of(key, challenge));
}

/// Law (forgery rejection): a transmitted tag whose decoded bytes differ
/// in any way — a single flipped bit included — from the keyed tag of
/// the decoded challenge never verifies.
pub proof fn lemma_tag_rejects_mutation(key: Seq<u8>, challenge: Seq<char>, tag: Seq<char>)
    requires
        hex_decode_spec(tag) != mac_of(key, hex_decode_spec(challenge)),
    ensures
        !tag_ok(key, challenge, tag),
{
}

} // verus!
