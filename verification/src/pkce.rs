//! PKCE secret generation: the high-entropy code verifier, the derived
//! S256 challenge, and the independent CSRF state token.

use vstd::prelude::*;

use crate::digits::{hex_chars_of, hex_numeral, lemma_hex_chars_len};
use crate::digits::u64_to_hex;

verus! {

/// SHA-256 digest of a byte sequence: a fixed function of the bytes,
/// named here and computed only by the outside hash implementation.
pub uninterp spec fn sha256_of(b: Seq<u8>) -> Seq<u8>;

/// base64url encoding without padding of a byte sequence: a fixed
/// function of the bytes, named here and computed only by the outside
/// encoder.
pub uninterp spec fn b64url_of(b: Seq<u8>) -> Seq<char>;

/// Relies on rand::thread_rng (a cryptographically secure generator) and
/// Rng::fill to draw fresh bytes; nothing can be promised of the values
/// themselves, only how many there are.
#[verifier::external_body]
fn random_bytes_32() -> (r: Vec<u8>)
    ensures
        r@.len() == 32,
{
    let mut rng = rand::thread_rng();
    let mut v = vec![0u8; 32];
    rand::Rng::fill(&mut rng, v.as_mut_slice());
    v
}

/// Relies on rand::random::<u64> for a fresh 64-bit value; nothing can be
/// promised of the value itself.
#[verifier::external_body]
fn random_u64() -> (r: u64) {
    rand::random::<u64>()
}

/// Relies on sha2::Sha256::digest: a 32-byte digest that depends on the
/// input bytes alone.
#[verifier::external_body]
fn sha256(b: &[u8]) -> (r: Vec<u8>)
    ensures
        r@ == sha256_of(b@),
        r@.len() == 32,
{
    <sha2::Sha256 as sha2::Digest>::digest(b).to_vec()
}

/// Relies on base64's URL_SAFE_NO_PAD engine: base64url without padding,
/// a function of the input bytes alone; the unpadded output holds
/// ceil(4n/3) characters for n input bytes.
#[verifier::external_body]
fn b64url_no_pad(b: &Vec<u8>) -> (r: String)
    ensures
        r@ == b64url_of(b@),
        r@.len() == (b@.len() * 4 + 2) / 3,
{
    base64::Engine::encode(&base64::engine::general_purpose::URL_SAFE_NO_PAD, b)
}

/// Relies on hex::encode: lowercase hex, two digits per byte, high nibble
/// first, which is exactly `hex_chars_of`.
#[verifier::external_body]
fn hex_encode(b: &Vec<u8>) -> (r: String)
    ensures
        r@ == hex_chars_of(b@),
{
    hex::encode(b)
}

/// A well-formed verifier: the lowercase hex encoding of 32 bytes.
pub open spec fn verifier_wf(v: Seq<char>) -> bool {
    exists|b: Seq<u8>| b.len() == 32 && v == hex_chars_of(b)
}

/// A well-formed CSRF state token: the lowercase hex numeral of a 64-bit
/// value.
pub open spec fn state_wf(s: Seq<char>) -> bool {
    exists|n: nat| n < 0x1_0000_0000_0000_0000 && s == hex_numeral(n)
}

/// The challenge derived from a verifier: base64url-no-pad of the SHA-256
/// of the verifier's UTF-8 bytes.
pub open spec fn challenge_chars(v: Seq<char>) -> Seq<char> {
    b64url_of(sha256_of(vstd::utf8::encode_utf8(v)))
}

/// Draws 32 bytes from a cryptographically secure random source and
/// hex-encodes them; bytes are never cached or reused across calls.
pub fn generate_code_verifier() -> (r: String)
    ensures
        verifier_wf(r@),
        r@.len() == 64,
{
    let bytes = random_bytes_32();
    let s = hex_encode(&bytes);
    proof {
        lemma_hex_chars_len(bytes@);
        assert(bytes@.len() == 32 && s@ == hex_chars_of(bytes@));
    }
    s
}

/// SHA-256 of the verifier's bytes, base64url encoded without padding.
/// One-way, and a pure function of the verifier: the contract pins the
/// result to `challenge_chars(verifier@)`.
pub fn generate_code_challenge(verifier: &str) -> (r: String)
    ensures
        r@ == challenge_chars(verifier@),
        r@.len() == 43,
{
    let digest = sha256(verifier.as_bytes());
    b64url_no_pad(&digest)
}

/// Deriving a challenge is deterministic: equal verifiers yield equal
/// challenges.
pub proof fn lemma_challenge_deterministic(v1: Seq<char>, v2: Seq<char>)
    requires
        v1 == v2,
    ensures
        challenge_chars(v1) == challenge_chars(v2),
{
}

/// An independent CSRF state token: 64 fresh random bits rendered as a
/// lowercase hex numeral, unrelated to the PKCE pair.
pub fn generate_state() -> (r: String)
    ensures
        state_wf(r@),
        r@.len() >= 1,
{
    let n = random_u64();
    let s = u64_to_hex(n);
    proof {
        assert(n < 0x1_0000_0000_0000_0000 && s@ == hex_numeral(n as nat));
        crate::digits::lemma_hex_numeral_len(n as nat);
    }
    s
}

} // verus!
