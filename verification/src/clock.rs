//! Moments and spans of time, in milliseconds.

use vstd::prelude::*;

verus! {

/// The moment `span` after `now`, at most the last moment there is.
pub open spec fn moment_after(now: u64, span: u64) -> u64 {
    if now + span <= u64::MAX {
        (now + span) as u64
    } else {
        u64::MAX
    }
}

/// The moment `span` after `now`.
pub fn after(now: u64, span: u64) -> (r: u64)
    ensures
        r == moment_after(now, span),
{
    now.saturating_add(span)
}

/// A moment that comes after another comes after it by the span, as far as
/// there are moments.
pub proof fn law_moment_comes_after_its_span(now: u64, span: u64)
    ensures
        now + span <= u64::MAX ==> moment_after(now, span) == now + span,
        now <= moment_after(now, span),
        now + span > u64::MAX ==> moment_after(now, span) == u64::MAX,
{
}

} // verus!
