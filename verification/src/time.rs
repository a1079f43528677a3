//! Plain representations of time: a span of time, a reading of the local
//! monotonic clock, and the clock that produces such readings.

use std::time::Duration;
use std::time::Instant;
use vstd::prelude::*;

verus! {

/// Number of nanoseconds in one second.
pub const NANOS_PER_SEC: u32 = 1_000_000_000;

/// The longest span that [`RelativeTime`] can hold, in nanoseconds.
pub open spec fn max_nanos() -> nat {
    (u64::MAX as nat) * 1_000_000_000 + 999_999_999
}

/// A non-negative span of time, held as whole seconds and a sub-second part
/// in nanoseconds.
#[derive(Clone, Copy, Debug, PartialEq, Eq, Structural)]
pub struct RelativeTime {
    secs: u64,
    nanos: u32,
}

impl View for RelativeTime {
    type V = nat;

    /// The length of the span in nanoseconds.
    closed spec fn view(&self) -> nat {
        (self.secs as nat) * 1_000_000_000 + (self.nanos as nat)
    }
}

impl RelativeTime {
    /// The sub-second part stays below one second.
    #[verifier::type_invariant]
    pub closed spec fn wf(self) -> bool {
        self.nanos < 1_000_000_000
    }

    /// The empty span.
    pub fn zero() -> (r: Self)
        ensures
            r.wf(),
            r@ == 0,
    {
        RelativeTime { secs: 0, nanos: 0 }
    }

    /// A span of `secs` whole seconds.
    pub fn from_secs(secs: u64) -> (r: Self)
        ensures
            r.wf(),
            r@ == secs as nat * 1_000_000_000,
    {
        RelativeTime { secs, nanos: 0 }
    }

    /// A span of `millis` milliseconds.
    pub fn from_millis(millis: u64) -> (r: Self)
        ensures
            r.wf(),
            r@ == millis as nat * 1_000_000,
    {
        let secs: u64 = millis / 1000;
        let rest: u64 = millis % 1000;
        let nanos: u32 = (rest * 1_000_000) as u32;
        RelativeTime { secs, nanos }
    }

    /// The span of `secs` seconds and `nanos` nanoseconds, where `nanos` is
    /// less than one second; `None` otherwise.
    pub fn from_parts(secs: u64, nanos: u32) -> (r: Option<Self>)
        ensures
            r.is_some() <==> nanos < NANOS_PER_SEC,
            r matches Some(t) ==> t.wf() && t@ == secs as nat * 1_000_000_000 + nanos as nat,
    {
        if nanos < NANOS_PER_SEC {
            Some(RelativeTime::assemble(secs, nanos))
        } else {
            None
        }
    }

    /// The span of `secs` seconds and `nanos` nanoseconds.
    fn assemble(secs: u64, nanos: u32) -> (r: Self)
        requires
            nanos < NANOS_PER_SEC,
        ensures
            r.wf(),
            r@ == secs as nat * 1_000_000_000 + nanos as nat,
    {
        RelativeTime { secs, nanos }
    }

    /// The span of `total` nanoseconds; `None` where it exceeds the longest
    /// span this type holds.
    pub fn from_nanos(total: u128) -> (r: Option<Self>)
        ensures
            r.is_some() <==> total <= max_nanos(),
            r matches Some(t) ==> t.wf() && t@ == total,
    {
        let secs: u128 = total / 1_000_000_000;
        let nanos: u32 = (total % 1_000_000_000) as u32;
        if secs <= u64::MAX as u128 {
            Some(RelativeTime { secs: secs as u64, nanos })
        } else {
            None
        }
    }

    /// Whole seconds of the span.
    pub fn as_secs(&self) -> (s: u64)
        ensures
            s as nat == self@ / 1_000_000_000,
    {
        proof {
            use_type_invariant(self);
        }
        self.secs
    }

    /// The part of the span below one second, in nanoseconds.
    pub fn subsec_nanos(&self) -> (n: u32)
        ensures
            n < NANOS_PER_SEC,
            n as nat == self@ % 1_000_000_000,
    {
        proof {
            use_type_invariant(self);
        }
        self.nanos
    }

    /// The whole span in nanoseconds.
    pub fn as_nanos(&self) -> (n: u128)
        ensures
            n == self@,
            n <= max_nanos(),
    {
        proof {
            use_type_invariant(self);
        }
        (self.secs as u128) * 1_000_000_000 + (self.nanos as u128)
    }

    /// Every well-formed span lies within the range of the type.
    pub proof fn lemma_bounded(self)
        requires
            self.wf(),
        ensures
            self@ <= max_nanos(),
    {
    }

    /// Two well-formed spans of the same length are the same value.
    pub proof fn lemma_view_injective(self, other: Self)
        requires
            self.wf(),
            other.wf(),
            self@ == other@,
        ensures
            self == other,
    {
    }

    /// The longest span this type holds.
    pub fn longest() -> (r: Self)
        ensures
            r.wf(),
            r@ == max_nanos(),
    {
        RelativeTime { secs: u64::MAX, nanos: 999_999_999 }
    }

    /// The sum of two spans; `None` where it exceeds the range of the type.
    pub fn checked_add(self, other: RelativeTime) -> (r: Option<RelativeTime>)
        ensures
            r.is_some() <==> self@ + other@ <= max_nanos(),
            r matches Some(t) ==> t.wf() && t@ == self@ + other@,
    {
        let total: u128 = self.as_nanos() + other.as_nanos();
        RelativeTime::from_nanos(total)
    }

    /// What is left of `self` after taking `other` away, and the empty span
    /// where `other` is the longer one.
    pub fn saturating_sub(self, other: RelativeTime) -> (r: RelativeTime)
        ensures
            r.wf(),
            r@ == if self@ >= other@ { (self@ - other@) as nat } else { 0 },
    {
        let a: u128 = self.as_nanos();
        let b: u128 = other.as_nanos();
        if a >= b {
            let d: u128 = a - b;
            match RelativeTime::from_nanos(d) {
                Some(t) => t,
                None => RelativeTime::zero(),
            }
        } else {
            RelativeTime::zero()
        }
    }
}

/// A reading of the local monotonic clock: the time that has passed since
/// the clock's origin. Readings of one clock can be compared and subtracted;
/// readings of different clocks have nothing in common.
#[derive(Clone, Copy, Debug, PartialEq, Eq, Structural)]
pub struct AbsoluteTime {
    since_origin: RelativeTime,
}

impl View for AbsoluteTime {
    type V = nat;

    /// Nanoseconds between the clock's origin and this reading.
    closed spec fn view(&self) -> nat {
        self.since_origin@
    }
}

impl AbsoluteTime {
    /// The distance from the origin is a well-formed span.
    #[verifier::type_invariant]
    pub closed spec fn wf(self) -> bool {
        self.since_origin.wf()
    }

    /// The reading that lies `elapsed` after the clock's origin.
    pub fn from_origin(elapsed: RelativeTime) -> (t: Self)
        ensures
            t.wf(),
            t@ == elapsed@,
    {
        proof {
            use_type_invariant(elapsed);
        }
        AbsoluteTime { since_origin: elapsed }
    }

    /// The time between the clock's origin and this reading.
    pub fn since_origin(&self) -> (elapsed: RelativeTime)
        ensures
            elapsed.wf(),
            elapsed@ == self@,
    {
        proof {
            use_type_invariant(self);
        }
        self.since_origin
    }

    /// Every well-formed reading lies within the range of the type.
    pub proof fn lemma_bounded(self)
        requires
            self.wf(),
        ensures
            self@ <= max_nanos(),
    {
    }

    /// Two well-formed readings at the same distance from the origin are the
    /// same value.
    pub proof fn lemma_view_injective(self, other: Self)
        requires
            self.wf(),
            other.wf(),
            self@ == other@,
        ensures
            self == other,
    {
        self.since_origin.lemma_view_injective(other.since_origin);
    }

    /// The reading `span` later; `None` where that lies beyond the range of
    /// the type.
    pub fn checked_add(self, span: RelativeTime) -> (r: Option<AbsoluteTime>)
        ensures
            r.is_some() <==> self@ + span@ <= max_nanos(),
            r matches Some(t) ==> t.wf() && t@ == self@ + span@,
    {
        proof {
            use_type_invariant(self);
        }
        match self.since_origin.checked_add(span) {
            Some(sum) => Some(AbsoluteTime { since_origin: sum }),
            None => None,
        }
    }

    /// The reading `span` later, and the last reading the type holds where
    /// the sum lies beyond it.
    pub fn saturating_add(self, span: RelativeTime) -> (t: AbsoluteTime)
        ensures
            t.wf(),
            t@ == if self@ + span@ <= max_nanos() { self@ + span@ } else { max_nanos() },
    {
        match self.checked_add(span) {
            Some(sum) => sum,
            None => AbsoluteTime { since_origin: RelativeTime::longest() },
        }
    }

    /// The time from `earlier` to this reading, and the empty span where
    /// `earlier` is in fact the later one.
    pub fn saturating_since(self, earlier: AbsoluteTime) -> (span: RelativeTime)
        ensures
            span.wf(),
            span@ == if self@ >= earlier@ { (self@ - earlier@) as nat } else { 0 },
    {
        proof {
            use_type_invariant(self);
            use_type_invariant(earlier);
        }
        self.since_origin.saturating_sub(earlier.since_origin)
    }

    /// Whether a deadline at this reading has been reached when the clock
    /// shows `now`.
    pub fn has_passed(&self, now: AbsoluteTime) -> (passed: bool)
        ensures
            passed == (now@ >= self@),
    {
        now.since_origin().as_nanos() >= self.since_origin().as_nanos()
    }
}

#[verifier::external_type_specification]
#[verifier::external_body]
pub struct ExInstant(std::time::Instant);

/// `Instant::now` of std: the present moment of the monotonic clock. Nothing
/// is claimed of the value.
#[verifier::external_body]
fn instant_now() -> Instant {
    Instant::now()
}

/// `Instant::saturating_duration_since` of std: the time from `earlier` to
/// `later`. Nothing is claimed of the value.
#[verifier::external_body]
fn instant_saturating_duration_since(later: &Instant, earlier: &Instant) -> Duration {
    later.saturating_duration_since(*earlier)
}

/// `Instant::checked_add` of std: the moment `span` after `start`, where std
/// can represent it. Nothing is claimed of the value.
#[verifier::external_body]
fn instant_checked_add(start: &Instant, span: Duration) -> Option<Instant> {
    start.checked_add(span)
}

/// `Duration::as_secs` of std: the whole seconds of a span.
#[verifier::external_body]
fn duration_as_secs(span: &Duration) -> u64 {
    span.as_secs()
}

/// `Duration::subsec_nanos` of std: the part of a span below one second, in
/// nanoseconds, which std documents to be less than one billion.
#[verifier::external_body]
fn duration_subsec_nanos(span: &Duration) -> (nanos: u32)
    ensures
        nanos < NANOS_PER_SEC,
{
    span.subsec_nanos()
}

/// `Duration::new` of std, which carries whole seconds out of `nanos` and
/// panics where that overflows; with `nanos` below one second there is no
/// carry. Nothing is claimed of the value.
#[verifier::external_body]
fn duration_new(secs: u64, nanos: u32) -> Duration
    requires
        nanos < NANOS_PER_SEC,
{
    Duration::new(secs, nanos)
}

/// The local monotonic clock, with the moment it was started as its origin.
/// All readings taken from one clock are measured from that moment.
pub struct Clock {
    origin: Instant,
}

impl Clock {
    /// Starts a clock: its origin is the present moment.
    pub fn start() -> Clock {
        Clock { origin: instant_now() }
    }

    /// The present reading of this clock.
    pub fn now(&self) -> (t: AbsoluteTime)
        ensures
            t.wf(),
    {
        let moment = instant_now();
        self.reading_of(&moment)
    }

    /// The reading of this clock at `moment`; a moment before the clock was
    /// started reads as the origin.
    pub fn reading_of(&self, moment: &Instant) -> (t: AbsoluteTime)
        ensures
            t.wf(),
    {
        let elapsed = instant_saturating_duration_since(moment, &self.origin);
        let secs: u64 = duration_as_secs(&elapsed);
        let nanos: u32 = duration_subsec_nanos(&elapsed);
        AbsoluteTime::from_origin(RelativeTime::assemble(secs, nanos))
    }

    /// The moment at which this clock shows `reading`, where std can
    /// represent it.
    pub fn moment_of(&self, reading: AbsoluteTime) -> Option<Instant> {
        let elapsed = reading.since_origin();
        let span = duration_new(elapsed.as_secs(), elapsed.subsec_nanos());
        instant_checked_add(&self.origin, span)
    }
}

} // verus!
