//! The syntax of an email address.

use vstd::prelude::*;

verus! {

/// Whether `validator`'s email check accepts the address. The check follows
/// the HTML5 rules for a valid email address and is a function of the
/// characters of the address alone.
pub uninterp spec fn email_syntax_ok(address: Seq<char>) -> bool;

/// An address that cannot be valid whatever else it holds: it is empty, has
/// no `@`, or has nothing after its last `@`.
pub open spec fn lacks_mailbox_or_domain(address: Seq<char>) -> bool {
    address.len() == 0 || !address.contains('@') || address.last() == '@'
}

/// Calls `validator::ValidateEmail::validate_email` on the address. That
/// method refuses the empty text and a text without `@`, then splits at the
/// last `@` and refuses an empty part after it; what it accepts beyond that
/// is left under the name `email_syntax_ok`.
#[verifier::external_body]
fn validate_email(address: &str) -> (ok: bool)
    ensures
        ok == email_syntax_ok(address@),
        ok ==> !lacks_mailbox_or_domain(address@),
{
    validator::ValidateEmail::validate_email(&address)
}

/// Whether `address` has the syntax of an email address. An empty text, one
/// without `@` and one that ends in `@` never have it.
pub fn is_valid_email(address: &str) -> (ok: bool)
    ensures
        ok == email_syntax_ok(address@),
        lacks_mailbox_or_domain(address@) ==> !ok,
{
    validate_email(address)
}

} // verus!
