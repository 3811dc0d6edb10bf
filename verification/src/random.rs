//! The two draws the crate makes from the thread-local random number
//! generator. Nothing is known of a draw but the set it comes from.
//!
//! The generator is seeded by the operating system when a thread first uses
//! it, and panics there if the system has no randomness to give.

use rand::Rng;
use vstd::prelude::*;

verus! {

/// An ASCII letter or digit.
pub open spec fn is_alphanumeric(c: char) -> bool {
    ||| 'A' <= c <= 'Z'
    ||| 'a' <= c <= 'z'
    ||| '0' <= c <= '9'
}

/// Every character of `s` is an ASCII letter or digit.
pub open spec fn all_alphanumeric(s: Seq<char>) -> bool {
    forall|i: int| 0 <= i < s.len() ==> is_alphanumeric(#[trigger] s[i])
}

/// Draws one character with `rand::thread_rng()` and `Rng::sample` from
/// `rand::distributions::Alphanumeric`, which picks a byte out of
/// `A`-`Z`, `a`-`z` and `0`-`9`. Which one is not known.
#[verifier::external_body]
pub(crate) fn sample_alphanumeric() -> (c: char)
    ensures
        is_alphanumeric(c),
{
    char::from(rand::thread_rng().sample(rand::distributions::Alphanumeric))
}

/// Draws one integer with `rand::thread_rng()` and `Rng::gen_range` from the
/// half-open range `low..high`. `gen_range` panics on an empty range, which
/// the precondition rules out.
#[verifier::external_body]
pub(crate) fn sample_range(low: u16, high: u16) -> (n: u16)
    requires
        low < high,
    ensures
        low <= n < high,
{
    rand::thread_rng().gen_range(low..high)
}

} // verus!
