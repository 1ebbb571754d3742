//! Time: spans of time, the monotonic clock and the system clock, each a
//! count of nanoseconds in a `u64`.
use vstd::prelude::*;

verus! {

/// Nanoseconds in a second.
pub const NANOS_PER_SEC: u64 = 1_000_000_000;

/// The largest span of time, in nanoseconds: `u64::MAX` seconds and
/// 999 999 999 nanoseconds.
pub open spec fn max_duration_nanos() -> nat {
    ((u64::MAX as nat) * (NANOS_PER_SEC as nat) + (NANOS_PER_SEC as nat) - 1) as nat
}

/// 2 to the 64.
pub open spec fn two_to_64() -> nat {
    0x1_0000_0000_0000_0000
}

/// A span of time, to the nanosecond.
#[derive(Clone, Copy, Debug, PartialEq, Eq, PartialOrd, Ord, Hash)]
pub struct Duration {
    nanos: u128,
}

impl Duration {
    #[verifier::type_invariant]
    spec fn within_range(self) -> bool {
        self.nanos <= max_duration_nanos()
    }

    /// The span in nanoseconds.
    pub closed spec fn total(self) -> nat {
        self.nanos as nat
    }

    /// Two spans of the same length are the same span.
    pub proof fn lemma_total_determines(a: Duration, b: Duration)
        ensures
            a.total() == b.total() ==> a == b,
    {
    }

    /// The span of `nanos` nanoseconds.
    pub fn from_nanos(nanos: u64) -> (r: Duration)
        ensures
            r.total() == nanos,
            low_nanos(r) == nanos,
    {
        assert((nanos as nat) % two_to_64() == nanos) by (nonlinear_arith)
            requires
                nanos <= u64::MAX,
        ;
        assert(nanos <= max_duration_nanos()) by (nonlinear_arith);
        Duration { nanos: nanos as u128 }
    }

    /// The span of `secs` seconds and `subsec_nanos` nanoseconds; nanoseconds
    /// of a billion or more carry over into the seconds, which must then
    /// still fit in a `u64`.
    pub fn new(secs: u64, subsec_nanos: u32) -> (r: Duration)
        requires
            secs + (subsec_nanos as int) / (NANOS_PER_SEC as int) <= u64::MAX,
        ensures
            r.total() == secs * NANOS_PER_SEC + subsec_nanos,
    {
        assert(secs * NANOS_PER_SEC + subsec_nanos <= max_duration_nanos()) by (nonlinear_arith)
            requires
                secs + (subsec_nanos as int) / (NANOS_PER_SEC as int) <= u64::MAX,
                subsec_nanos <= u32::MAX,
        ;
        Duration { nanos: (secs as u128) * (NANOS_PER_SEC as u128) + (subsec_nanos as u128) }
    }

    /// The span in nanoseconds.
    pub fn as_nanos(&self) -> (r: u128)
        ensures
            r == self.total(),
            r <= max_duration_nanos(),
    {
        proof {
            use_type_invariant(self);
        }
        self.nanos
    }

    /// The whole seconds of the span.
    pub fn as_secs(&self) -> (r: u64)
        ensures
            r == self.total() / (NANOS_PER_SEC as nat),
    {
        proof {
            use_type_invariant(self);
            assert(self.nanos / (NANOS_PER_SEC as u128) <= u64::MAX) by (nonlinear_arith)
                requires
                    self.nanos <= max_duration_nanos(),
            ;
        }
        (self.nanos / (NANOS_PER_SEC as u128)) as u64
    }

    /// The nanoseconds of the span beyond its whole seconds.
    pub fn subsec_nanos(&self) -> (r: u32)
        ensures
            r == self.total() % (NANOS_PER_SEC as nat),
    {
        (self.nanos % (NANOS_PER_SEC as u128)) as u32
    }
}

/// A span taken as a count of nanoseconds in a `u64`: its low 64 bits.
pub open spec fn low_nanos(d: Duration) -> nat {
    d.total() % two_to_64()
}

/// The low 64 bits of a span in nanoseconds, as the clocks count it.
fn duration_as_u64(d: &Duration) -> (r: u64)
    ensures
        r == low_nanos(*d),
{
    (d.as_nanos() % 0x1_0000_0000_0000_0000u128) as u64
}

/// A reading of the monotonic clock, in nanoseconds.
#[derive(Clone, Copy, Debug, PartialEq, Eq, PartialOrd, Ord, Hash)]
pub struct Instant {
    t: u64,
}

/// `t` moved forward by the low 64 bits of `d`, if that stays within `u64`.
pub open spec fn add_nanos(t: u64, d: Duration) -> Option<u64> {
    if t + low_nanos(d) <= u64::MAX {
        Some((t + low_nanos(d)) as u64)
    } else {
        None
    }
}

/// `t` moved back by the low 64 bits of `d`, if that stays at or above 0.
pub open spec fn sub_nanos(t: u64, d: Duration) -> Option<u64> {
    if t >= low_nanos(d) {
        Some((t - low_nanos(d)) as u64)
    } else {
        None
    }
}

impl Instant {
    /// The reading in nanoseconds.
    pub closed spec fn nanos(self) -> u64 {
        self.t
    }

    /// Two readings with the same nanoseconds are the same reading.
    pub proof fn lemma_nanos_determine(a: Instant, b: Instant)
        ensures
            a.nanos() == b.nanos() ==> a == b,
    {
    }

    /// The current reading; TantraOS gives no clock yet, so it is 0.
    pub fn now() -> (r: Instant)
        ensures
            r.nanos() == 0,
    {
        Instant { t: 0 }
    }

    /// The time from `other` to `self`, if `other` is not later.
    pub fn checked_sub(&self, other: &Instant) -> (r: Option<Duration>)
        ensures
            self.nanos() >= other.nanos() ==> (r matches Some(d) && d.total() == self.nanos() - other.nanos()),
            self.nanos() < other.nanos() ==> r is None,
    {
        if self.t >= other.t {
            Some(Duration::from_nanos(self.t - other.t))
        } else {
            None
        }
    }

    /// The reading `duration` later, if it can be represented; the span is
    /// taken as its low 64 bits of nanoseconds.
    pub fn checked_add(&self, duration: &Duration) -> (r: Option<Instant>)
        ensures
            match add_nanos(self.nanos(), *duration) {
                Some(t) => r matches Some(i) && i.nanos() == t,
                None => r is None,
            },
    {
        match self.t.checked_add(duration_as_u64(duration)) {
            Some(t) => Some(Instant { t }),
            None => None,
        }
    }

    /// The reading `other` earlier, if it can be represented; the span is
    /// taken as its low 64 bits of nanoseconds.
    pub fn checked_sub_duration(&self, other: &Duration) -> (r: Option<Instant>)
        ensures
            match sub_nanos(self.nanos(), *other) {
                Some(t) => r matches Some(i) && i.nanos() == t,
                None => r is None,
            },
    {
        match self.t.checked_sub(duration_as_u64(other)) {
            Some(t) => Some(Instant { t }),
            None => None,
        }
    }

    /// The time from `other` to `self`, if `other` is not later.
    pub fn checked_sub_instant(&self, other: &Instant) -> (r: Option<Duration>)
        ensures
            self.nanos() >= other.nanos() ==> (r matches Some(d) && d.total() == self.nanos() - other.nanos()),
            self.nanos() < other.nanos() ==> r is None,
    {
        self.checked_sub(other)
    }

    /// The reading `duration` later, if it can be represented.
    pub fn checked_add_duration(&self, duration: &Duration) -> (r: Option<Instant>)
        ensures
            match add_nanos(self.nanos(), *duration) {
                Some(t) => r matches Some(i) && i.nanos() == t,
                None => r is None,
            },
    {
        self.checked_add(duration)
    }
}

/// A reading of the system clock, in nanoseconds since the Unix epoch.
#[derive(Clone, Copy, Debug, PartialEq, Eq, PartialOrd, Ord, Hash)]
pub struct SystemTime {
    t: u64,
}

/// The Unix epoch: 0 nanoseconds.
pub fn unix_epoch() -> (r: SystemTime)
    ensures
        r.nanos() == 0,
{
    SystemTime { t: 0 }
}

impl SystemTime {
    /// The reading in nanoseconds since the epoch.
    pub closed spec fn nanos(self) -> u64 {
        self.t
    }

    /// Two readings with the same nanoseconds are the same reading.
    pub proof fn lemma_nanos_determine(a: SystemTime, b: SystemTime)
        ensures
            a.nanos() == b.nanos() ==> a == b,
    {
    }

    /// The current time; TantraOS gives no clock yet, so it is the epoch.
    pub fn now() -> (r: SystemTime)
        ensures
            r.nanos() == 0,
    {
        SystemTime { t: 0 }
    }

    /// The time `duration` later, if it can be represented.
    pub fn checked_add(&self, duration: &Duration) -> (r: Option<SystemTime>)
        ensures
            match add_nanos(self.nanos(), *duration) {
                Some(t) => r matches Some(i) && i.nanos() == t,
                None => r is None,
            },
    {
        match self.t.checked_add(duration_as_u64(duration)) {
            Some(t) => Some(SystemTime { t }),
            None => None,
        }
    }

    /// The time `duration` earlier, if it can be represented.
    pub fn checked_sub(&self, duration: &Duration) -> (r: Option<SystemTime>)
        ensures
            match sub_nanos(self.nanos(), *duration) {
                Some(t) => r matches Some(i) && i.nanos() == t,
                None => r is None,
            },
    {
        match self.t.checked_sub(duration_as_u64(duration)) {
            Some(t) => Some(SystemTime { t }),
            None => None,
        }
    }

    /// The time from `other` to `self`: `Ok` with it if `other` is not
    /// later, `Err` with the time from `self` to `other` otherwise.
    pub fn sub_time(&self, other: &SystemTime) -> (r: Result<Duration, Duration>)
        ensures
            self.nanos() >= other.nanos() ==> (r matches Ok(d) && d.total() == self.nanos() - other.nanos()),
            self.nanos() < other.nanos() ==> (r matches Err(d) && d.total() == other.nanos() - self.nanos()),
    {
        if self.t >= other.t {
            Ok(Duration::from_nanos(self.t - other.t))
        } else {
            Err(Duration::from_nanos(other.t - self.t))
        }
    }

    /// The time `duration` later, if it can be represented.
    pub fn checked_add_duration(&self, duration: &Duration) -> (r: Option<SystemTime>)
        ensures
            match add_nanos(self.nanos(), *duration) {
                Some(t) => r matches Some(i) && i.nanos() == t,
                None => r is None,
            },
    {
        self.checked_add(duration)
    }

    /// The time `duration` earlier, if it can be represented.
    pub fn checked_sub_duration(&self, duration: &Duration) -> (r: Option<SystemTime>)
        ensures
            match sub_nanos(self.nanos(), *duration) {
                Some(t) => r matches Some(i) && i.nanos() == t,
                None => r is None,
            },
    {
        self.checked_sub(duration)
    }
}

/// Whether sleeping for `dur` from `start` goes on at the reading `now`:
/// while `now` is before `start + dur`; not at all when that sum cannot be
/// represented.
pub fn sleep_continues(start: &Instant, dur: &Duration, now: &Instant) -> (r: bool)
    ensures
        r == match add_nanos(start.nanos(), *dur) {
            Some(end) => now.nanos() < end,
            None => false,
        },
{
    match start.checked_add(dur) {
        Some(end) => now.t < end.t,
        None => false,
    }
}

/// Moving a clock reading forward by a span and back by the same span
/// gives the reading back.
pub proof fn lemma_add_then_sub(t: u64, d: Duration)
    ensures
        add_nanos(t, d) matches Some(u) ==> sub_nanos(u, d) == Some(t),
{
}

/// Moving a clock reading back by a span and forward by the same span gives
/// the reading back.
pub proof fn lemma_sub_then_add(t: u64, d: Duration)
    ensures
        sub_nanos(t, d) matches Some(u) ==> add_nanos(u, d) == Some(t),
{
}

/// For a span shorter than 2^64 nanoseconds, the time between a reading and
/// the reading that span later is the span itself.
pub proof fn lemma_add_then_measure(t: u64, d: Duration)
    requires
        d.total() < two_to_64(),
    ensures
        add_nanos(t, d) matches Some(u) ==> u >= t && u - t == d.total(),
{
    assert(d.total() % two_to_64() == d.total()) by (nonlinear_arith)
        requires
            d.total() < two_to_64(),
    ;
}

/// While the clock stands at 0, as it does until TantraOS gives one, a sleep
/// that starts at 0 for a span whose low 64 bits of nanoseconds are not 0
/// goes on at every reading: it never ends.
pub proof fn lemma_sleep_with_stopped_clock(dur: Duration)
    requires
        low_nanos(dur) > 0,
    ensures
        add_nanos(0, dur) matches Some(end) && 0 < end,
{
}

} // verus!
