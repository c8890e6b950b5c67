pub mod custom;
pub mod usage;

use vstd::prelude::*;
use crate::utils::time::{div_toward_zero, parse_rfc3339, rfc3339_instant, seconds_between, whole_seconds_between, Instant};

verus! {

/// What a segment shows: its main text, a secondary text, and named
/// values for the renderer (each name at most once).
pub struct SegmentData {
    pub primary: String,
    pub secondary: String,
    pub metadata: Vec<(String, String)>,
}

/// The views of a list of name/value pairs.
pub open spec fn pairs_view(pairs: Seq<(String, String)>) -> Seq<(Seq<char>, Seq<char>)> {
    pairs.map_values(|p: (String, String)| (p.0@, p.1@))
}

/// A cache entry taken at the time written `cached_at` is still fresh at
/// `now` for a maximum age of `max_age` seconds: the text parses as RFC
/// 3339, and fewer whole seconds have passed since then than `max_age`
/// read as a signed 64-bit number (`max_age as i64`).
pub open spec fn fresh_at(cached_at: Seq<char>, now: Instant, max_age: u64) -> bool {
    match rfc3339_instant(cached_at) {
        Some((secs, nanos)) => whole_seconds_between(now.secs, now.nanos, secs, nanos) < max_age as i64,
        None => false,
    }
}

/// Whether a cache entry taken at `cached_at` is still fresh at `now`.
pub fn is_fresh_at(cached_at: &str, now: &Instant, max_age: u64) -> (r: bool)
    requires
        now.valid(),
    ensures
        r == fresh_at(cached_at@, *now, max_age),
{
    match parse_rfc3339(cached_at) {
        Some(then) => seconds_between(now, &then) < max_age as i64,
        None => false,
    }
}

proof fn lemma_div_toward_zero_monotone(a: int, c: int, b: int)
    requires
        a <= c,
        b > 0,
    ensures
        div_toward_zero(a, b) <= div_toward_zero(c, b),
{
    if a >= 0 {
        vstd::arithmetic::div_mod::lemma_div_is_ordered(a, c, b);
    } else if c >= 0 {
        assert((-a) / b >= 0) by (nonlinear_arith)
            requires
                -a > 0,
                b > 0,
        ;
        assert(c / b >= 0) by (nonlinear_arith)
            requires
                c >= 0,
                b > 0,
        ;
    } else {
        vstd::arithmetic::div_mod::lemma_div_is_ordered(-c, -a, b);
    }
}

/// A longer maximum age never makes a fresh entry stale.
pub proof fn law_fresh_for_longer_max_age(cached_at: Seq<char>, now: Instant, max_age: u64, longer: u64)
    requires
        fresh_at(cached_at, now, max_age),
        max_age <= longer <= i64::MAX,
    ensures
        fresh_at(cached_at, now, longer),
{
}

/// Outside leap seconds, an entry that is stale at some time stays stale
/// at every later time.
pub proof fn law_stale_stays_stale(cached_at: Seq<char>, earlier: Instant, later: Instant, max_age: u64)
    requires
        rfc3339_instant(cached_at) matches Some((_, nanos)) && nanos < 1_000_000_000,
        earlier.nanos < 1_000_000_000,
        later.nanos < 1_000_000_000,
        earlier.secs * 1_000_000_000 + earlier.nanos <= later.secs * 1_000_000_000 + later.nanos,
        !fresh_at(cached_at, earlier, max_age),
    ensures
        !fresh_at(cached_at, later, max_age),
{
    let (secs, nanos) = rfc3339_instant(cached_at)->0;
    lemma_div_toward_zero_monotone(
        (earlier.secs - secs) * 1_000_000_000 + (earlier.nanos - nanos),
        (later.secs - secs) * 1_000_000_000 + (later.nanos - nanos),
        1_000_000_000,
    );
}

} // verus!
