//! The host's wall clock.

use vstd::prelude::*;

verus! {

/// The hour of day on the host's local clock, read through
/// `chrono::Local::now` and `chrono::Timelike::hour`. Trusted: chrono
/// documents the hour as a number from 0 to 23. Which of them comes back
/// depends on the moment of the call, so nothing more is claimed.
#[verifier::external_body]
pub(crate) fn local_hour() -> (h: u32)
    ensures
        h < 24,
{
    chrono::Timelike::hour(&chrono::Local::now())
}

} // verus!
