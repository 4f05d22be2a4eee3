//! Opaque user tokens: random strings of letters and digits.
use vstd::prelude::*;

verus! {

/// Number of characters in a token.
pub const TOKEN_LEN: usize = 32;

/// An ASCII letter or digit.
pub open spec fn is_alphanumeric(c: char) -> bool {
    ('0' <= c && c <= '9') || ('a' <= c && c <= 'z') || ('A' <= c && c <= 'Z')
}

/// A well-formed token: exactly `TOKEN_LEN` ASCII letters and digits.
pub open spec fn is_token(s: Seq<char>) -> bool {
    &&& s.len() == TOKEN_LEN
    &&& forall|i: int| 0 <= i < s.len() ==> is_alphanumeric(#[trigger] s[i])
}

/// Relies on rand's `Alphanumeric` distribution (`DistString::sample_string`)
/// with the thread-local generator: `len` characters, each one of A-Z, a-z
/// and 0-9. Nothing is promised about which.
#[verifier::external_body]
fn random_alphanumeric(len: usize) -> (r: String)
    ensures
        r@.len() == len,
        forall|i: int| 0 <= i < len ==> is_alphanumeric(#[trigger] r@[i]),
{
    rand::distributions::DistString::sample_string(
        &rand::distributions::Alphanumeric,
        &mut rand::thread_rng(),
        len,
    )
}

/// Draws a fresh token.
pub fn generate_token() -> (r: String)
    ensures
        is_token(r@),
{
    random_alphanumeric(TOKEN_LEN)
}

} // verus!
