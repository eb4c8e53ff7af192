//! Points in time with the resolution of the system clock, and the spans between them.
use vstd::prelude::*;

verus! {

/// Nanoseconds in a second.
pub const NANOS_PER_SEC: i128 = 1_000_000_000;

/// The first number of nanoseconds after the Unix epoch that no `Timestamp` reaches: 2^63 seconds.
pub open spec fn end_of_time() -> int {
    0x8000_0000_0000_0000int * 1_000_000_000
}

/// Whether a number of nanoseconds since the Unix epoch is within the range of `Timestamp`:
/// its whole seconds, rounded down, fit in 64 bits with a sign.
pub open spec fn representable(nanos: int) -> bool {
    -end_of_time() <= nanos < end_of_time()
}

/// A point in time. Its view is the number of nanoseconds since the Unix epoch.
#[derive(Clone, Copy, Debug, PartialEq, Eq, Structural)]
pub struct Timestamp {
    nanos: i128,
}

impl View for Timestamp {
    type V = int;

    closed spec fn view(&self) -> int {
        self.nanos as int
    }
}

/// The views of an optional point in time.
pub open spec fn instant(time: Option<Timestamp>) -> Option<int> {
    match time {
        Some(time) => Some(time@),
        None => None,
    }
}

/// A span of time that is not negative.
#[derive(Clone, Copy, Debug, PartialEq, Eq, Structural)]
pub struct Span {
    /// Whole seconds.
    pub secs: u64,
    /// Nanoseconds beyond the whole seconds, less than a second.
    pub nanos: u32,
}

impl View for Span {
    type V = int;

    open spec fn view(&self) -> int {
        self.secs * 1_000_000_000 + self.nanos
    }
}

impl Timestamp {
    #[verifier::type_invariant]
    spec fn in_range(self) -> bool {
        representable(self.nanos as int)
    }

    /// The point in time so many nanoseconds after (or, if negative, before) the Unix epoch.
    pub fn from_nanos(nanos: i128) -> (time: Option<Timestamp>)
        ensures
            time is Some <==> representable(nanos as int),
            time matches Some(time) ==> time@ == nanos,
    {
        let end: i128 = 0x8000_0000_0000_0000i128 * NANOS_PER_SEC;
        if -end <= nanos && nanos < end {
            Some(Timestamp { nanos })
        } else {
            None
        }
    }

    /// The nanoseconds since the Unix epoch.
    pub fn nanos(&self) -> (nanos: i128)
        ensures
            nanos == self@,
            representable(self@),
    {
        proof {
            use_type_invariant(self);
        }
        self.nanos
    }

    /// The point in time so many seconds after the Unix epoch.
    pub fn from_epoch_secs(secs: i64) -> (time: Timestamp)
        requires
            secs >= 0,
        ensures
            time@ == secs * 1_000_000_000,
    {
        Timestamp { nanos: secs as i128 * NANOS_PER_SEC }
    }

    /// The point in time so many seconds after this one, if it is within range.
    pub fn checked_add_secs(&self, secs: u64) -> (time: Option<Timestamp>)
        ensures
            time is Some <==> representable(self@ + secs * 1_000_000_000),
            time matches Some(time) ==> time@ == self@ + secs * 1_000_000_000,
    {
        proof {
            use_type_invariant(self);
        }
        Timestamp::from_nanos(self.nanos + secs as i128 * NANOS_PER_SEC)
    }

    /// The point in time so many seconds after this one.
    pub fn add_secs(&self, secs: u64) -> (time: Timestamp)
        requires
            representable(self@ + secs * 1_000_000_000),
        ensures
            time@ == self@ + secs * 1_000_000_000,
    {
        Timestamp { nanos: self.nanos + secs as i128 * NANOS_PER_SEC }
    }

    /// Whether this point in time is `other` or later.
    pub fn at_or_after(&self, other: &Timestamp) -> (reached: bool)
        ensures
            reached == (self@ >= other@),
    {
        self.nanos >= other.nanos
    }

    /// The whole seconds since the Unix epoch, rounded down.
    pub fn epoch_secs(&self) -> (secs: i64)
        requires
            self@ >= 0,
        ensures
            secs == self@ / 1_000_000_000,
            secs >= 0,
    {
        proof {
            use_type_invariant(self);
        }
        (self.nanos / NANOS_PER_SEC) as i64
    }

    /// How long it takes from `earlier` until this point in time; nothing if it has passed.
    pub fn saturating_since(&self, earlier: &Timestamp) -> (span: Span)
        ensures
            span@ == if self@ >= earlier@ { self@ - earlier@ } else { 0 },
            span.nanos < 1_000_000_000,
            self@ >= earlier@ ==> earlier@ + span.secs * 1_000_000_000 + span.nanos == self@,
            self@ <= earlier@ ==> span.secs == 0 && span.nanos == 0,
    {
        proof {
            use_type_invariant(self);
            use_type_invariant(earlier);
        }
        if self.nanos >= earlier.nanos {
            let nanos: i128 = self.nanos - earlier.nanos;
            Span { secs: (nanos / NANOS_PER_SEC) as u64, nanos: (nanos % NANOS_PER_SEC) as u32 }
        } else {
            Span { secs: 0, nanos: 0 }
        }
    }
}

/// The range of the clock is that of whole seconds in 64 bits with a sign, counted from the Unix
/// epoch and rounded down.
pub proof fn range_is_that_of_signed_seconds(nanos: int)
    ensures
        representable(nanos) <==> i64::MIN <= nanos / 1_000_000_000 <= i64::MAX,
{
}

/// An optional point in time is seen through its nanoseconds, and none is none.
pub proof fn optional_times_keep_their_nanoseconds(time: Timestamp)
    ensures
        instant(Some(time)) == Some(time@),
        instant(None) == None::<int>,
{
}

/// Two spans of the same length are the same if both count less than a second in nanoseconds, and
/// a second more is a second longer.
pub proof fn spans_are_told_apart_by_their_length(one: Span, other: Span)
    requires
        one.nanos < 1_000_000_000,
        other.nanos < 1_000_000_000,
    ensures
        one@ == other@ <==> one == other,
        one.secs == other.secs + 1 && one.nanos == other.nanos ==> one@ == other@ + 1_000_000_000,
        one.secs == 0 ==> one@ == one.nanos,
{
}

} // verus!
