//! Identifiers and tokens: what they look like, and how fresh ones are made.
//!
//! An identifier is a random 128-bit value in its canonical form: 32 lower
//! case hexadecimal digits in groups of 8, 4, 4, 4 and 12, with a hyphen
//! between groups, the third group opening with `4` and the fourth with one
//! of `8`, `9`, `a`, `b`. A token is `TOKEN_LENGTH` letters and digits.

use vstd::prelude::*;
use crate::text::{is_alphanumeric, is_letter_or_digit, to_chars};

verus! {

/// The number of characters of a token.
pub const TOKEN_LENGTH: u64 = 30;

/// The number of characters of an identifier.
pub const ID_LENGTH: usize = 36;

/// A digit of lower case hexadecimal.
pub open spec fn is_lower_hex(c: char) -> bool {
    ('0' <= c && c <= '9') || ('a' <= c && c <= 'f')
}

/// Whether `c` may stand at position `i` of an identifier.
pub open spec fn id_char_ok(i: int, c: char) -> bool {
    if i == 8 || i == 13 || i == 18 || i == 23 {
        c == '-'
    } else if i == 14 {
        c == '4'
    } else if i == 19 {
        c == '8' || c == '9' || c == 'a' || c == 'b'
    } else {
        is_lower_hex(c)
    }
}

/// The canonical form of an identifier.
pub open spec fn is_canonical_id(s: Seq<char>) -> bool {
    &&& s.len() == ID_LENGTH
    &&& forall|i: int| 0 <= i < s.len() ==> id_char_ok(i, #[trigger] s[i])
}

/// A text of letters and digits only, and of at least one.
pub open spec fn is_alphanumeric_text(s: Seq<char>) -> bool {
    &&& s.len() > 0
    &&& forall|i: int| 0 <= i < s.len() ==> is_alphanumeric(#[trigger] s[i])
}

/// The form of a token.
pub open spec fn is_token(s: Seq<char>) -> bool {
    s.len() == TOKEN_LENGTH && is_alphanumeric_text(s)
}

/// Whether `c` may stand at position `i` of an identifier.
pub fn id_char_matches(i: usize, c: char) -> (ok: bool)
    ensures
        ok == id_char_ok(i as int, c),
{
    if i == 8 || i == 13 || i == 18 || i == 23 {
        c == '-'
    } else if i == 14 {
        c == '4'
    } else if i == 19 {
        c == '8' || c == '9' || c == 'a' || c == 'b'
    } else {
        (c >= '0' && c <= '9') || (c >= 'a' && c <= 'f')
    }
}

/// Whether `msg_id` is an identifier in canonical form.
pub fn is_msg_id(msg_id: &str) -> (ok: bool)
    ensures
        ok == is_canonical_id(msg_id@),
{
    let chars = to_chars(msg_id);
    if chars.len() != ID_LENGTH {
        return false;
    }
    let mut i: usize = 0;
    while i < chars.len()
        invariant
            chars@ == msg_id@,
            i <= chars.len(),
            chars.len() == ID_LENGTH,
            forall|k: int| 0 <= k < i ==> id_char_ok(k, #[trigger] chars@[k]),
        decreases chars.len() - i,
    {
        if !id_char_matches(i, chars[i]) {
            assert(!id_char_ok(i as int, msg_id@[i as int]));
            return false;
        }
        i += 1;
    }
    true
}

/// Whether `text` is made of letters and digits only, and of at least one.
pub fn is_alphanumeric_str(text: &str) -> (ok: bool)
    ensures
        ok == is_alphanumeric_text(text@),
{
    let chars = to_chars(text);
    if chars.len() == 0 {
        return false;
    }
    let mut i: usize = 0;
    while i < chars.len()
        invariant
            chars@ == text@,
            0 < chars.len(),
            i <= chars.len(),
            forall|k: int| 0 <= k < i ==> is_alphanumeric(#[trigger] chars@[k]),
        decreases chars.len() - i,
    {
        if !is_letter_or_digit(chars[i]) {
            assert(!is_alphanumeric(text@[i as int]));
            return false;
        }
        i += 1;
    }
    true
}

/// Whether `token` has the form of a token.
pub fn is_token_str(token: &str) -> (ok: bool)
    ensures
        ok == is_token(token@),
{
    let n = token.unicode_len();
    n as u64 == TOKEN_LENGTH && is_alphanumeric_str(token)
}

/// `rand::rngs::ThreadRng`, the handle to a thread's random number
/// generator. It is carried to the draws, and nothing is known of what it
/// holds.
#[verifier::external_type_specification]
#[verifier::external_body]
pub struct ExThreadRng(rand::rngs::ThreadRng);

/// `rand::rng` hands out the calling thread's random number generator.
/// Nothing is claimed of it.
pub assume_specification[ rand::rng ]() -> (rng: rand::rngs::ThreadRng)
;

/// `String::push` appends one character to the end of the string: the
/// characters are those from before, then `ch`.
pub assume_specification[ String::push ](s: &mut String, ch: char)
    ensures
        final(s)@ == old(s)@.push(ch),
;

/// Draws one byte with `rand::Rng::sample` from `rand::distr::Alphanumeric`,
/// which yields the ASCII code of a letter or a digit, whatever the generator
/// gives.
#[verifier::external_body]
fn sample_alphanumeric(rng: &mut rand::rngs::ThreadRng) -> (byte: u8)
    ensures
        is_alphanumeric(byte as char),
{
    rand::Rng::sample(rng, rand::distr::Alphanumeric)
}

/// Makes a version 4 identifier with `uuid::Uuid::new_v4` and renders it with
/// `to_string`: 122 random bits, the version digit `4` and a variant digit
/// among `8`, `9`, `a`, `b`, hyphenated, in lower case.
#[verifier::external_body]
fn random_uuid_text() -> (id: String)
    ensures
        is_canonical_id(id@),
{
    uuid::Uuid::new_v4().to_string()
}

/// A fresh identifier, in canonical form.
pub fn new_submission_id() -> (id: String)
    ensures
        is_canonical_id(id@),
{
    random_uuid_text()
}

/// A fresh token: `TOKEN_LENGTH` characters, each a letter or a digit drawn
/// at random.
pub fn new_token() -> (token: String)
    ensures
        is_token(token@),
{
    let mut rng = rand::rng();
    let mut token = String::new();
    let mut drawn: u64 = 0;
    while drawn < TOKEN_LENGTH
        invariant
            drawn <= TOKEN_LENGTH,
            token@.len() == drawn,
            forall|i: int| 0 <= i < token@.len() ==> is_alphanumeric(#[trigger] token@[i]),
        decreases TOKEN_LENGTH - drawn,
    {
        let byte = sample_alphanumeric(&mut rng);
        token.push(byte as char);
        drawn += 1;
    }
    token
}

} // verus!
