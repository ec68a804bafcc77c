//! Time as plain numbers: a span of whole seconds and a sub-second part,
//! and the readings of the system's clocks.

use std::time::{Duration, Instant, SystemTime, UNIX_EPOCH};
use vstd::arithmetic::div_mod::lemma_fundamental_div_mod;
use vstd::prelude::*;

verus! {

/// Nanoseconds in one second.
pub const NANOS_PER_SEC: u32 = 1_000_000_000;

/// `std::time::Instant`, a reading of the monotonic clock, carried as it is.
#[verifier::external_type_specification]
#[verifier::external_body]
pub struct ExInstant(Instant);

/// A non-negative length of time with nanosecond resolution.
///
/// A point in time is given as the span since a reference point: the Unix
/// epoch for wall-clock time, an entry's creation for monotonic time.
#[derive(Clone, Copy, Debug)]
pub struct Span {
    secs: u64,
    nanos: u32,
}

impl View for Span {
    type V = nat;

    /// The span in nanoseconds.
    closed spec fn view(&self) -> nat {
        (self.secs as nat) * (NANOS_PER_SEC as nat) + (self.nanos as nat)
    }
}

/// Seconds turned into nanoseconds stay below a bound that leaves room for
/// sums of a few spans in 128 bits.
pub proof fn lemma_nanos_of_secs(secs: u64)
    ensures
        secs as nat * NANOS_PER_SEC as nat == secs * 1_000_000_000,
        secs * 1_000_000_000 <= 18_446_744_073_709_551_615_000_000_000,
{
    assert(secs as nat * NANOS_PER_SEC as nat == secs * 1_000_000_000) by (nonlinear_arith)
        requires
            NANOS_PER_SEC == 1_000_000_000,
    ;
}

impl Span {
    /// The sub-second part is a proper fraction of a second.
    #[verifier::type_invariant]
    spec fn fraction_in_range(self) -> bool {
        self.nanos < NANOS_PER_SEC
    }

    /// The empty span.
    pub fn zero() -> (span: Span)
        ensures
            span@ == 0,
    {
        Span { secs: 0, nanos: 0 }
    }

    /// A span of whole seconds.
    pub fn from_secs(secs: u64) -> (span: Span)
        ensures
            span@ == secs as nat * NANOS_PER_SEC as nat,
    {
        Span { secs, nanos: 0 }
    }

    /// A span of `secs` seconds and `subsec_nanos` nanoseconds, where the
    /// latter is a proper fraction of a second.
    pub fn new(secs: u64, subsec_nanos: u32) -> (span: Option<Span>)
        ensures
            subsec_nanos < NANOS_PER_SEC <==> span is Some,
            span matches Some(s) ==> s@ == secs as nat * NANOS_PER_SEC as nat + subsec_nanos as nat,
    {
        if subsec_nanos < NANOS_PER_SEC {
            Some(Span { secs, nanos: subsec_nanos })
        } else {
            None
        }
    }

    /// The span of `nanos` nanoseconds, where that many fit.
    pub fn from_nanos(nanos: u128) -> (span: Option<Span>)
        ensures
            nanos / (NANOS_PER_SEC as u128) <= u64::MAX <==> span is Some,
            span matches Some(s) ==> s@ == nanos,
    {
        let secs: u128 = nanos / (NANOS_PER_SEC as u128);
        let rest: u128 = nanos % (NANOS_PER_SEC as u128);
        proof {
            lemma_fundamental_div_mod(nanos as int, NANOS_PER_SEC as int);
        }
        if secs <= u64::MAX as u128 {
            Some(Span { secs: secs as u64, nanos: rest as u32 })
        } else {
            None
        }
    }

    /// The whole seconds of the span.
    pub fn secs(&self) -> (secs: u64)
        ensures
            secs == self@ / (NANOS_PER_SEC as nat),
    {
        proof {
            use_type_invariant(self);
        }
        self.secs
    }

    /// What the span holds beyond its whole seconds, in nanoseconds.
    pub fn subsec_nanos(&self) -> (nanos: u32)
        ensures
            nanos == self@ % (NANOS_PER_SEC as nat),
    {
        proof {
            use_type_invariant(self);
        }
        self.nanos
    }

    /// The span in nanoseconds.
    pub fn as_nanos(&self) -> (nanos: u128)
        ensures
            nanos == self@,
            nanos < 18_446_744_073_709_551_616_000_000_000,
    {
        proof {
            use_type_invariant(self);
            lemma_nanos_of_secs(self.secs);
        }
        (self.secs as u128) * (NANOS_PER_SEC as u128) + (self.nanos as u128)
    }
}

/// Reads the system clock with `SystemTime::now` and gives the time since the
/// Unix epoch as whole seconds and nanoseconds, or nothing where the clock
/// stands before the epoch. Nothing is claimed of the reading but that the
/// nanoseconds are a proper fraction of a second, as `Duration::subsec_nanos`
/// documents.
#[verifier::external_body]
fn read_system_time() -> (reading: Option<(u64, u32)>)
    ensures
        reading matches Some(t) ==> t.1 < NANOS_PER_SEC,
{
    match SystemTime::now().duration_since(UNIX_EPOCH) {
        Ok(d) => Some((d.as_secs(), d.subsec_nanos())),
        Err(_) => None,
    }
}

/// Reads the monotonic clock with `Instant::elapsed` and gives the time passed
/// since `since` as whole seconds and nanoseconds. Nothing is claimed of the
/// reading but that the nanoseconds are a proper fraction of a second.
#[verifier::external_body]
fn read_elapsed(since: Instant) -> (reading: (u64, u32))
    ensures
        reading.1 < NANOS_PER_SEC,
{
    let d = since.elapsed();
    (d.as_secs(), d.subsec_nanos())
}

/// The nanoseconds that a `Duration` holds: what `Duration::as_nanos` gives.
pub uninterp spec fn duration_nanos(duration: Duration) -> nat;

/// Makes a `Duration` of the span with `Duration::new`, which takes whole
/// seconds and nanoseconds beyond them and cannot overflow for a fraction
/// below one second. The duration holds as many nanoseconds as the span.
#[verifier::external_body]
pub(crate) fn to_duration(span: &Span) -> (duration: Duration)
    ensures
        duration_nanos(duration) == span@,
{
    Duration::new(span.secs, span.nanos)
}

/// The nanoseconds that a reading of a clock stands for, given as whole
/// seconds and nanoseconds beyond them: none where there is no reading, and
/// none where the nanoseconds are no proper fraction of a second.
pub open spec fn spec_span_of_reading(reading: Option<(u64, u32)>) -> nat {
    match reading {
        Some(t) => if t.1 < NANOS_PER_SEC {
            t.0 as nat * NANOS_PER_SEC as nat + t.1 as nat
        } else {
            0
        },
        None => 0,
    }
}

/// The span that a reading of a clock stands for.
pub fn span_of_reading(reading: Option<(u64, u32)>) -> (span: Span)
    ensures
        span@ == spec_span_of_reading(reading),
{
    match reading {
        Some(t) => match Span::new(t.0, t.1) {
            Some(span) => span,
            None => Span::zero(),
        },
        None => Span::zero(),
    }
}

/// The wall-clock time as the span since the Unix epoch: the span that the
/// reading of the system clock stands for. A clock that stands before the
/// epoch gives no reading and so reads as the epoch itself.
pub fn since_epoch() -> (now: Span) {
    span_of_reading(read_system_time())
}

/// The time that has passed on the monotonic clock since `since`: the span
/// that the reading of the monotonic clock stands for.
pub fn elapsed_since(since: Instant) -> (elapsed: Span) {
    span_of_reading(Some(read_elapsed(since)))
}

} // verus!
