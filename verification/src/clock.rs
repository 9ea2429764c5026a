//! Instants on the wall clock, as the library compares and subtracts them.
use vstd::prelude::*;

verus! {

/// Nanoseconds in one second.
pub const NANOS_PER_SEC: u128 = 1_000_000_000;

/// An instant on the wall clock: nanoseconds after the Unix epoch
/// (negative for instants before it). Two instants are the same exactly when
/// their counts are equal.
#[derive(Clone, Copy, PartialEq, Eq, Debug)]
pub struct Timestamp {
    pub nanos: i128,
}

/// Whole seconds from `earlier` to `later`, rounded down: the seconds part of
/// the span between them.
pub open spec fn whole_secs(earlier: Timestamp, later: Timestamp) -> int {
    (later.nanos - earlier.nanos) / (NANOS_PER_SEC as int)
}

/// The whole seconds that have passed from `earlier` to `later`.
pub fn whole_secs_between(earlier: Timestamp, later: Timestamp) -> (secs: u128)
    requires
        earlier.nanos <= later.nanos,
    ensures
        secs == whole_secs(earlier, later),
        secs * 1_000_000_000 <= later.nanos - earlier.nanos,
        later.nanos - earlier.nanos < (secs + 1) * 1_000_000_000,
{
    let span: u128 = if earlier.nanos >= 0 || later.nanos < 0 {
        (later.nanos - earlier.nanos) as u128
    } else {
        later.nanos as u128 + (-(earlier.nanos + 1)) as u128 + 1
    };
    assert(span == later.nanos - earlier.nanos);
    proof {
        whole_secs_is_the_floor(earlier, later);
    }
    span / NANOS_PER_SEC
}

/// The whole seconds between two instants are the span between them in
/// nanoseconds, rounded down to seconds, wherever the instants lie: never
/// negative, at most the span, and less than a second short of it.
pub proof fn whole_secs_is_the_floor(earlier: Timestamp, later: Timestamp)
    requires
        earlier.nanos <= later.nanos,
    ensures
        0 <= whole_secs(earlier, later),
        whole_secs(earlier, later) * 1_000_000_000 <= later.nanos - earlier.nanos,
        later.nanos - earlier.nanos < (whole_secs(earlier, later) + 1) * 1_000_000_000,
{
    let span: int = later.nanos - earlier.nanos;
    let q: int = whole_secs(earlier, later);
    assert(span == 1_000_000_000 * (span / 1_000_000_000) + span % 1_000_000_000) by {
        vstd::arithmetic::div_mod::lemma_fundamental_div_mod(span, 1_000_000_000);
    }
    assert(0 <= span % 1_000_000_000 < 1_000_000_000) by {
        vstd::arithmetic::div_mod::lemma_mod_pos_bound(span, 1_000_000_000);
    }
    assert(q == span / 1_000_000_000);
    assert(q >= 0) by {
        vstd::arithmetic::div_mod::lemma_div_pos_is_pos(span, 1_000_000_000);
    }
}

} // verus!
