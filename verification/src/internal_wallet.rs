use rand::Rng;
use vstd::prelude::*;
use vstd::string::*;

verus! {

/// A letter of the ASCII alphabet, in either case, or an ASCII digit.
pub open spec fn is_ascii_alphanumeric(c: char) -> bool {
    ('a' <= c && c <= 'z') || ('A' <= c && c <= 'Z') || ('0' <= c && c <= '9')
}

/// A fresh random string of `length` ASCII letters and digits.
///
/// Trusted: draws `length` samples of `rand::distributions::Alphanumeric` from
/// `rand::thread_rng`. That distribution yields only the bytes `a-z`, `A-Z` and
/// `0-9`; which of them come out is left open.
#[verifier::external_body]
pub(crate) fn generate_password(length: usize) -> (password: String)
    ensures
        password@.len() == length,
        forall|i: int| 0 <= i < length ==> is_ascii_alphanumeric(#[trigger] password@[i]),
{
    rand::thread_rng()
        .sample_iter(&rand::distributions::Alphanumeric)
        .take(length)
        .map(char::from)
        .collect()
}

} // verus!
