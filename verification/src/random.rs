//! The random draws that the simulation makes, through `fastrand`'s
//! thread-local generator.

use vstd::prelude::*;

verus! {

/// Draws an `i16` uniformly from `low..high` with `fastrand::i16`.
///
/// Trusted: `fastrand::i16` panics on an empty range, so `low < high` is
/// required; on a non-empty range its source computes `low` plus a value
/// taken modulo the range's length, so the result lies in `low..high`.
/// Which value comes out depends on the generator's hidden state and is
/// not stated.
#[verifier::external_body]
pub(crate) fn random_i16(low: i16, high: i16) -> (r: i16)
    requires
        low < high,
    ensures
        low <= r < high,
{
    fastrand::i16(low..high)
}

/// Draws a `bool` with `fastrand::bool`.
///
/// Trusted: either value may come back; nothing is stated of it.
#[verifier::external_body]
pub(crate) fn random_bool() -> bool {
    fastrand::bool()
}

} // verus!
