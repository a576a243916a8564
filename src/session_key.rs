//! Minting of session identifiers.
use vstd::prelude::*;

verus! {

/// Number of characters in a session key.
pub const SESSION_KEY_LEN: usize = 64;

/// `b` is an ASCII letter or digit.
pub open spec fn is_alphanumeric(b: u8) -> bool {
    (0x30 <= b <= 0x39) || (0x41 <= b <= 0x5a) || (0x61 <= b <= 0x7a)
}

/// `c` is an ASCII letter or digit.
pub open spec fn is_alphanumeric_char(c: char) -> bool {
    ('0' <= c <= '9') || ('A' <= c <= 'Z') || ('a' <= c <= 'z')
}

/// A well-formed session key: exactly 64 ASCII letters and digits.
pub open spec fn is_session_key(s: Seq<char>) -> bool {
    s.len() == SESSION_KEY_LEN && forall|i: int| 0 <= i < s.len() ==> is_alphanumeric_char(#[trigger] s[i])
}

/// Relies on rand's `Alphanumeric` distribution sampled from `OsRng`: one byte
/// drawn from `A-Z`, `a-z` and `0-9` by the operating system's secure source.
#[verifier::external_body]
fn random_alphanumeric() -> (r: u8)
    ensures
        is_alphanumeric(r),
{
    rand::Rng::sample(&mut rand::rngs::OsRng, rand::distributions::Alphanumeric)
}

/// Relies on `String::from_utf8`, which accepts any sequence of ASCII bytes
/// and keeps one character per byte.
#[verifier::external_body]
fn string_from_ascii(bytes: Vec<u8>) -> (r: String)
    requires
        forall|i: int| 0 <= i < bytes@.len() ==> bytes@[i] < 0x80,
    ensures
        r@ == bytes@.map_values(|b: u8| b as char),
{
    match String::from_utf8(bytes) {
        Ok(s) => s,
        Err(_) => String::new(),
    }
}

/// A fresh session key of 64 letters and digits from a secure random source.
pub fn generate_session_key() -> (r: String)
    ensures
        is_session_key(r@),
{
    let mut bytes: Vec<u8> = Vec::new();
    let mut i: usize = 0;
    while i < SESSION_KEY_LEN
        invariant
            i <= SESSION_KEY_LEN,
            bytes@.len() == i,
            forall|j: int| 0 <= j < i ==> is_alphanumeric(#[trigger] bytes@[j]),
        decreases SESSION_KEY_LEN - i,
    {
        bytes.push(random_alphanumeric());
        i = i + 1;
    }
    let ghost raw = bytes@;
    let s = string_from_ascii(bytes);
    assert forall|j: int| 0 <= j < s@.len() implies is_alphanumeric_char(#[trigger] s@[j]) by {
        assert(is_alphanumeric(raw[j]));
        assert(s@[j] == raw[j] as char);
    }
    s
}

} // verus!
