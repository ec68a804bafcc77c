//! How long a cached revocation list may be served: a share of the time left
//! until the issuer's own next update, never more than a configured maximum.

use crate::clock::{elapsed_since, lemma_nanos_of_secs, since_epoch, Span, NANOS_PER_SEC};
use std::time::Instant;
use vstd::prelude::*;

verus! {

/// The share of the time until the next update after which an entry is
/// refreshed, in percent.
pub const CACHE_REFRESH_PERCENT: u8 = 95;

/// The time to live that the next update allows, in nanoseconds.
///
/// `now` is the wall-clock time in nanoseconds since the epoch, `elapsed` the
/// time that has passed on the monotonic clock since the entry was created.
/// The time left on the wall clock is carried over to the monotonic clock,
/// measured from the entry's creation, and scaled by `refresh_percent`. There
/// is none where the next update lies in the past.
pub open spec fn spec_duration_from_creation(
    elapsed: nat,
    now: nat,
    next_update: u64,
    refresh_percent: u8,
) -> Option<nat> {
    let deadline = next_update as nat * NANOS_PER_SEC as nat;
    if deadline >= now {
        Some(((deadline - now + elapsed) * refresh_percent as nat / 100) as nat)
    } else {
        None
    }
}

/// Computes [`spec_duration_from_creation`] from given clock readings.
pub fn duration_from_creation_at(
    elapsed: &Span,
    now: &Span,
    next_update: u64,
    refresh_percent: u8,
) -> (ttl: Option<u128>)
    ensures
        match ttl {
            Some(d) => spec_duration_from_creation(elapsed@, now@, next_update, refresh_percent)
                == Some(d as nat),
            None => spec_duration_from_creation(elapsed@, now@, next_update, refresh_percent)
                is None,
        },
{
    proof {
        lemma_nanos_of_secs(next_update);
    }
    let deadline: u128 = (next_update as u128) * (NANOS_PER_SEC as u128);
    let now_nanos: u128 = now.as_nanos();
    if deadline >= now_nanos {
        let total: u128 = deadline - now_nanos + elapsed.as_nanos();
        assert(total * refresh_percent < 0x1_0000_0000_0000_0000_0000_0000 * 0x100) by (nonlinear_arith)
            requires
                total < 0x1_0000_0000_0000_0000_0000_0000,
                refresh_percent < 0x100,
        ;
        Some(total * (refresh_percent as u128) / 100)
    } else {
        None
    }
}

/// The time to live that the next update allows at this moment, in
/// nanoseconds: [`spec_duration_from_creation`] of what the two clocks read.
pub fn duration_from_creation(created_at: Instant, next_update: u64, refresh_percent: u8) -> (ttl:
    Option<u128>)
    ensures
        exists|elapsed: nat, now: nat|
            match ttl {
                Some(d) => #[trigger] spec_duration_from_creation(
                    elapsed,
                    now,
                    next_update,
                    refresh_percent,
                ) == Some(d as nat),
                None => spec_duration_from_creation(elapsed, now, next_update, refresh_percent)
                    is None,
            },
{
    let now = since_epoch();
    let elapsed = elapsed_since(created_at);
    let ttl = duration_from_creation_at(&elapsed, &now, next_update, refresh_percent);
    proof {
        let _ = spec_duration_from_creation(elapsed@, now@, next_update, refresh_percent);
    }
    ttl
}

/// The expiry policy of the cache: an entry lives for the refresh share of
/// the time until its list's next update, and never longer than `max_ttl_sec`.
#[derive(Clone, Copy, Debug)]
pub struct CrlExpPolicy {
    pub max_ttl_sec: u32,
}

impl CrlExpPolicy {
    /// The policy under which no entry lives longer than `max_ttl_sec`
    /// seconds.
    pub fn new(max_ttl_sec: u32) -> (policy: Self)
        ensures
            policy.max_ttl_sec == max_ttl_sec,
    {
        Self { max_ttl_sec }
    }

    /// The longest time to live the policy grants, in nanoseconds.
    pub open spec fn spec_max_ttl(self) -> nat {
        self.max_ttl_sec as nat * NANOS_PER_SEC as nat
    }

    /// The time to live of an entry, in nanoseconds, at given clock readings.
    ///
    /// A list without a next update lives for the maximum. A list whose next
    /// update is already past may expire at once. Any other lives for what
    /// [`spec_duration_from_creation`] allows, cut to the maximum.
    pub open spec fn spec_time_to_live(self, next_update: Option<u64>, elapsed: nat, now: nat) -> nat {
        match next_update {
            None => self.spec_max_ttl(),
            Some(t) => match spec_duration_from_creation(elapsed, now, t, CACHE_REFRESH_PERCENT) {
                None => 0,
                Some(d) => if d <= self.spec_max_ttl() {
                    d
                } else {
                    self.spec_max_ttl()
                },
            },
        }
    }

    /// Computes [`Self::spec_time_to_live`] from given clock readings.
    pub fn time_to_live_at(&self, next_update: Option<u64>, elapsed: &Span, now: &Span) -> (ttl: Span)
        ensures
            ttl@ == self.spec_time_to_live(next_update, elapsed@, now@),
    {
        let max_ttl = Span::from_secs(self.max_ttl_sec as u64);
        match next_update {
            None => max_ttl,
            Some(t) => match duration_from_creation_at(elapsed, now, t, CACHE_REFRESH_PERCENT) {
                None => Span::zero(),
                Some(d) => {
                    if d <= max_ttl.as_nanos() {
                        match Span::from_nanos(d) {
                            Some(ttl) => ttl,
                            None => max_ttl,
                        }
                    } else {
                        max_ttl
                    }
                },
            },
        }
    }

    /// The time to live of an entry created at `created_at`, at this moment:
    /// [`Self::spec_time_to_live`] of what the two clocks read.
    pub fn time_to_live(&self, next_update: Option<u64>, created_at: Instant) -> (ttl: Span)
        ensures
            exists|elapsed: nat, now: nat| ttl@ == #[trigger] self.spec_time_to_live(next_update, elapsed, now),
            next_update is None ==> ttl@ == self.spec_max_ttl(),
            ttl@ <= self.spec_max_ttl(),
    {
        let now = since_epoch();
        let elapsed = elapsed_since(created_at);
        let ttl = self.time_to_live_at(next_update, &elapsed, &now);
        proof {
            let _ = self.spec_time_to_live(next_update, elapsed@, now@);
        }
        ttl
    }
}

/// A list that names no next update lives for the maximum, whatever the
/// clocks read.
pub proof fn lemma_ttl_without_next_update(policy: CrlExpPolicy, elapsed: nat, now: nat)
    ensures
        policy.spec_time_to_live(None, elapsed, now) == policy.spec_max_ttl(),
{
}

/// A list whose next update is already past may expire at once.
pub proof fn lemma_ttl_of_overdue_list(policy: CrlExpPolicy, next_update: u64, elapsed: nat, now: nat)
    requires
        next_update as nat * (NANOS_PER_SEC as nat) < now,
    ensures
        policy.spec_time_to_live(Some(next_update), elapsed, now) == 0,
{
}

/// No entry lives longer than the maximum, and none outlives its list: a
/// time to live that is not zero, counted from the entry's creation, ends no
/// later than the time until the next update, counted from now.
pub proof fn lemma_ttl_bounds(policy: CrlExpPolicy, next_update: Option<u64>, elapsed: nat, now: nat)
    ensures
        policy.spec_time_to_live(next_update, elapsed, now) <= policy.spec_max_ttl(),
        next_update matches Some(t) ==> now + policy.spec_time_to_live(next_update, elapsed, now)
            <= t as nat * NANOS_PER_SEC as nat + elapsed || policy.spec_time_to_live(
            next_update,
            elapsed,
            now,
        ) == 0,
{
    if let Some(t) = next_update {
        let deadline = t as nat * NANOS_PER_SEC as nat;
        if deadline >= now {
            let total = (deadline - now + elapsed) as nat;
            assert(total * 95 / 100 <= total);
        }
    }
}

/// With the clocks in step, a list that is replaced a hundred seconds from
/// now lives for ninety-five, where the maximum allows that.
pub proof fn lemma_ttl_is_refresh_share(policy: CrlExpPolicy, next_update: u64, now: nat)
    requires
        next_update as nat * NANOS_PER_SEC as nat == now + 100 * NANOS_PER_SEC as nat,
        policy.max_ttl_sec >= 95,
    ensures
        policy.spec_time_to_live(Some(next_update), 0, now) == 95 * NANOS_PER_SEC as nat,
{
    assert(policy.max_ttl_sec as nat * NANOS_PER_SEC as nat >= 95 * NANOS_PER_SEC as nat)
        by (nonlinear_arith)
        requires
            policy.max_ttl_sec >= 95,
    ;
}

} // verus!
