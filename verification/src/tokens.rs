//! Confirmation-token issuance: a cryptographically random token, encoded
//! with the Crockford base-32 alphabet, stored by the caller under a
//! namespaced subject with a time-to-live.
//!
//! The key/value store write is transport work and stays outside; what is
//! here is everything the token's value and shape depend on.

use vstd::prelude::*;
use vstd::string::StringExecFns;

use rand::RngCore;

verus! {

/// How many random bytes a confirmation token is generated from.
pub const TOKEN_RANDOM_BYTES: usize = 32;

/// How long a stored confirmation token lives, in seconds.
pub const CONFIRMATION_TOKEN_TTL_SECONDS: usize = 60 * 10;

/// A character of the Crockford base-32 alphabet: digits and upper-case
/// letters, the ambiguous I, L, O and U excluded.
pub open spec fn is_crockford_char(c: char) -> bool {
    ('0' <= c && c <= '9') || ('A' <= c && c <= 'Z' && c != 'I' && c != 'L' && c != 'O' && c
        != 'U')
}

/// What base32 encoding with the Crockford alphabet yields on a byte
/// sequence: a function of the bytes alone.
pub uninterp spec fn crockford_encoding(bytes: Seq<u8>) -> Seq<char>;

/// Relies on base32::encode with the Crockford alphabet: the result is a
/// function of the input bytes alone; it indexes only into the Crockford
/// digit set, and without padding it is exactly (8n + 4) / 5 characters
/// long for n input bytes.
#[verifier::external_body]
fn encode_crockford(bytes: &Vec<u8>) -> (r: String)
    ensures
        r@ == crockford_encoding(bytes@),
        r@.len() == (bytes@.len() * 8 + 4) / 5,
        forall|i: int| 0 <= i < r@.len() ==> is_crockford_char(#[trigger] r@[i]),
{
    base32::encode(base32::Alphabet::Crockford, bytes.as_slice())
}

/// Relies on rand::rngs::OsRng::fill_bytes: fills the buffer from the
/// operating system's secure random source; nothing is assumed about the
/// values, only that the requested number of bytes comes back.
#[verifier::external_body]
fn os_random_bytes(count: usize) -> (r: Vec<u8>)
    ensures
        r@.len() == count,
{
    let mut buf = vec![0u8; count];
    rand::rngs::OsRng.fill_bytes(&mut buf);
    buf
}

/// Return a base32 encoded random generated token of the given size in
/// bytes. The token is uppercase Crockford text of fixed length; its value
/// is random and nothing more is promised of it.
pub fn generate_token(size: usize) -> (r: String)
    ensures
        r@.len() == (size * 8 + 4) / 5,
        forall|i: int| 0 <= i < r@.len() ==> is_crockford_char(#[trigger] r@[i]),
{
    let bytes = os_random_bytes(size);
    encode_crockford(&bytes)
}

/// A fresh confirmation token: 32 bytes of secure randomness, 52 Crockford
/// characters of text.
pub fn new_confirmation_token() -> (r: String)
    ensures
        r@.len() == 52,
        forall|i: int| 0 <= i < r@.len() ==> is_crockford_char(#[trigger] r@[i]),
{
    generate_token(TOKEN_RANDOM_BYTES)
}

/// The store key a user's confirmation token is filed under.
pub fn confirmation_token_subject(username: &str) -> (r: String)
    ensures
        r@ == "confirmation_tokens:"@ + username@,
{
    let mut subject: String = "confirmation_tokens:".to_owned();
    subject.append(username);
    subject
}

} // verus!
