//! The engine's source of randomness.
//!
//! Every stochastic step of the engine draws its numbers through the
//! one wrapper below, from a `rand::rngs::StdRng` that the caller
//! supplies. Seeding that generator is the caller's choice, so a run
//! can be made reproducible without touching any formula.

use vstd::prelude::*;

verus! {

#[verifier::external_type_specification]
#[verifier::external_body]
pub struct ExStdRng(rand::rngs::StdRng);

/// Relies on `rand::Rng::gen_range` over a half-open `Range<u64>`:
/// it returns a value at least the lower bound and below the upper
/// bound, and panics only on an empty range, which the precondition
/// rules out.
#[verifier::external_body]
pub(crate) fn draw_range(rng: &mut rand::rngs::StdRng, lo: u64, hi: u64) -> (r: u64)
    requires
        lo < hi,
    ensures
        lo <= r < hi,
{
    rand::Rng::gen_range(rng, lo..hi)
}

/// Relies on `uuid::Uuid::new_v4` and the `Display` form of `Uuid`:
/// a fresh random identifier, rendered as the 36-character hyphenated
/// text form.
#[verifier::external_body]
pub(crate) fn fresh_uuid_text() -> (r: String)
    ensures
        r@.len() == 36,
{
    uuid::Uuid::new_v4().to_string()
}

} // verus!
