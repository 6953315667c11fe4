//! Time: the stopwatch that the stages time a request with, and the spans
//! it reads. What a stopwatch reads depends on the clock, so nothing is
//! stated of it. Nothing in this file is proved.

use std::time::Duration;
use stopwatch::Stopwatch;
use vstd::prelude::*;

verus! {

/// `stopwatch::Stopwatch`.
#[verifier::external_type_specification]
#[verifier::external_body]
pub struct ExStopwatch(Stopwatch);

/// The nanoseconds in a `Duration`: what `Duration::as_nanos` returns.
pub uninterp spec fn nanos_of(d: Duration) -> nat;

/// `Stopwatch::start_new`: a stopwatch that runs from now.
pub assume_specification[ Stopwatch::start_new ]() -> (r: Stopwatch)
;

/// `Stopwatch::elapsed`: the time for which the stopwatch has run.
pub assume_specification[ Stopwatch::elapsed ](w: &Stopwatch) -> (r: Duration)
;

/// `Duration::as_nanos`.
pub assume_specification[ Duration::as_nanos ](d: &Duration) -> (r: u128)
    ensures
        r == nanos_of(*d),
;

/// `Duration::saturating_sub`: the difference, and zero where the second
/// span is the longer one.
pub assume_specification[ Duration::saturating_sub ](a: Duration, b: Duration) -> (r: Duration)
    ensures
        nanos_of(r) == if nanos_of(b) <= nanos_of(a) {
            (nanos_of(a) - nanos_of(b)) as nat
        } else {
            0
        },
;

} // verus!
