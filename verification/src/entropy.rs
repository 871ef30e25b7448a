//! Random text for the placeholders that an account is created with.

use vstd::prelude::*;

verus! {

/// The ASCII letters and digits.
pub open spec fn is_alphanumeric(c: char) -> bool {
    ('a' <= c && c <= 'z') || ('A' <= c && c <= 'Z') || ('0' <= c && c <= '9')
}

/// `rand::thread_rng` sampled with `rand::distributions::Alphanumeric`:
/// `length` characters, each an ASCII letter or digit. Which ones is left
/// open; two calls need not agree.
#[verifier::external_body]
pub fn generate_random_string(length: usize) -> (out: String)
    ensures
        out@.len() == length,
        forall|i: int| 0 <= i < out@.len() ==> is_alphanumeric(#[trigger] out@[i]),
{
    rand::Rng::sample_iter(rand::thread_rng(), &rand::distributions::Alphanumeric)
        .take(length)
        .map(char::from)
        .collect()
}

} // verus!
