//! Checks and random values that the service takes from outside crates.
use vstd::prelude::*;

verus! {

/// Whether the `email_address` crate accepts the text as an e-mail address
/// (`EmailAddress::is_valid`).
pub uninterp spec fn email_address_valid(address: Seq<char>) -> bool;

/// An ASCII letter or digit.
pub open spec fn is_ascii_alphanumeric(c: char) -> bool {
    ('a' <= c && c <= 'z') || ('A' <= c && c <= 'Z') || ('0' <= c && c <= '9')
}

/// Whether the address is valid, by `email_address::EmailAddress::is_valid`; the result is
/// the named `email_address_valid` of the text. The crate refuses an address without `@`
/// (`MissingSeparator`).
#[verifier::external_body]
pub fn is_valid_email(email: &str) -> (r: bool)
    ensures
        r == email_address_valid(email@),
        r ==> email@.contains('@'),
{
    email_address::EmailAddress::is_valid(email)
}

/// `len` random ASCII letters and digits, from `rand`'s `Alphanumeric` distribution over
/// the thread-local generator (`Alphanumeric.sample_string(&mut rand::rng(), len)`).
/// Which characters come is not stated: they are random.
#[verifier::external_body]
pub fn rand_str_limit(len: usize) -> (r: String)
    ensures
        r@.len() == len,
        forall|i: int| 0 <= i < r@.len() ==> is_ascii_alphanumeric(#[trigger] r@[i]),
{
    rand::distr::SampleString::sample_string(&rand::distr::Alphanumeric, &mut rand::rng(), len)
}

} // verus!
