use vstd::prelude::*;
use crate::text::push_char;

verus! {

/// The number of characters of a subscription token.
pub const TOKEN_LENGTH: usize = 25;

/// An ASCII letter or digit: the 62 characters that tokens are drawn from.
pub open spec fn is_token_char(c: char) -> bool {
    ('a' <= c && c <= 'z') || ('A' <= c && c <= 'Z') || ('0' <= c && c <= '9')
}

/// A subscription token: `TOKEN_LENGTH` letters and digits.
pub open spec fn is_subscription_token(t: Seq<char>) -> bool {
    t.len() == TOKEN_LENGTH && forall|i: int| 0 <= i < t.len() ==> is_token_char(#[trigger] t[i])
}

/// Relies on rand's Alphanumeric distribution, sampled from the thread-local
/// cryptographically strong generator: one byte out of the ASCII letters and digits.
#[verifier::external_body]
fn random_alphanumeric() -> (c: char)
    ensures
        is_token_char(c),
{
    rand::Rng::sample(&mut rand::thread_rng(), rand::distributions::Alphanumeric) as char
}

/// A fresh random token, uniformly drawn from letters and digits.
pub fn generate_subscription_token() -> (r: String)
    ensures
        is_subscription_token(r@),
{
    let mut token = String::new();
    let mut i: usize = 0;
    while i < TOKEN_LENGTH
        invariant
            i <= TOKEN_LENGTH,
            token@.len() == i,
            forall|j: int| 0 <= j < i ==> is_token_char(#[trigger] token@[j]),
        decreases TOKEN_LENGTH - i,
    {
        push_char(&mut token, random_alphanumeric());
        i = i + 1;
    }
    token
}

} // verus!
