use vstd::prelude::*;

verus! {

/// Nanoseconds in one second.
pub const NANOS_PER_SEC: u32 = 1_000_000_000;

/// The largest span a `Duration` holds, in nanoseconds.
pub open spec fn max_duration_nanos() -> int {
    u64::MAX as int * 1_000_000_000 + 999_999_999
}

/// A span of time: whole seconds and the nanoseconds beyond them, as `std::time::Duration`
/// holds it.
#[derive(Debug, Clone, Copy, PartialEq, Eq, Structural)]
pub struct Duration {
    secs: u64,
    nanos: u32,
}

impl View for Duration {
    type V = int;

    /// The span in nanoseconds.
    closed spec fn view(&self) -> int {
        self.secs as int * 1_000_000_000 + self.nanos as int
    }
}

impl Duration {
    /// The nanoseconds beyond the whole seconds stay below one second.
    #[verifier::type_invariant]
    pub closed spec fn inv(self) -> bool {
        self.nanos < NANOS_PER_SEC
    }

    /// A span lies between zero and the longest span.
    pub proof fn lemma_bounds(self)
        requires
            self.inv(),
        ensures
            0 <= self@ <= max_duration_nanos(),
    {
    }

    /// Spans of equal length are equal.
    pub proof fn lemma_view_injective(self, other: Self)
        requires
            self.inv(),
            other.inv(),
            self@ == other@,
        ensures
            self == other,
    {
    }

    /// A span of whole seconds.
    pub fn from_secs(secs: u64) -> (r: Self)
        ensures
            r@ == secs as int * 1_000_000_000,
            r.as_secs_spec() == secs,
            r.subsec_nanos_spec() == 0,
            0 <= r@ <= max_duration_nanos(),
    {
        Duration { secs, nanos: 0 }
    }

    /// A span of `secs` seconds and `nanos` nanoseconds; nanoseconds beyond a second carry
    /// into the seconds.
    pub fn new(secs: u64, nanos: u32) -> (r: Self)
        requires
            secs as int + nanos as int / 1_000_000_000 <= u64::MAX,
        ensures
            r@ == secs as int * 1_000_000_000 + nanos as int,
    {
        let extra = nanos / NANOS_PER_SEC;
        let rest = nanos % NANOS_PER_SEC;
        Duration { secs: secs + extra as u64, nanos: rest }
    }

    /// The whole seconds of the span.
    pub closed spec fn as_secs_spec(&self) -> u64 {
        self.secs
    }

    /// The nanoseconds beyond the whole seconds.
    pub closed spec fn subsec_nanos_spec(&self) -> u32 {
        self.nanos
    }

    /// The whole seconds of the span.
    pub fn as_secs(&self) -> (r: u64)
        ensures
            r == self.as_secs_spec(),
            r as int == self@ / 1_000_000_000,
    {
        proof {
            use_type_invariant(self);
        }
        self.secs
    }

    /// The nanoseconds beyond the whole seconds.
    pub fn subsec_nanos(&self) -> (r: u32)
        ensures
            r == self.subsec_nanos_spec(),
            r as int == self@ % 1_000_000_000,
            r < NANOS_PER_SEC,
    {
        proof {
            use_type_invariant(self);
        }
        self.nanos
    }

    /// The longest span.
    pub fn max_value() -> (r: Self)
        ensures
            r@ == max_duration_nanos(),
    {
        Duration { secs: u64::MAX, nanos: 999_999_999 }
    }

    /// The sum of the two spans, or the longest span where the sum does not fit.
    pub fn saturating_add(self, rhs: Self) -> (r: Self)
        ensures
            r@ == if self@ + rhs@ <= max_duration_nanos() { self@ + rhs@ } else { max_duration_nanos() },
            self@ <= r@ <= max_duration_nanos(),
            rhs@ <= r@,
    {
        proof {
            use_type_invariant(&self);
            use_type_invariant(&rhs);
        }
        let mut nanos: u32 = self.nanos + rhs.nanos;
        let mut carry: u64 = 0;
        if nanos >= NANOS_PER_SEC {
            nanos = nanos - NANOS_PER_SEC;
            carry = 1;
        }
        if self.secs > u64::MAX - rhs.secs || self.secs + rhs.secs > u64::MAX - carry {
            return Self::max_value();
        }
        Duration { secs: self.secs + rhs.secs + carry, nanos }
    }
}

/// The first instant that `time::OffsetDateTime` holds: -9999-01-01 00:00:00 UTC, in
/// nanoseconds since the Unix epoch.
pub const MIN_UNIX_NANOS: i128 = -377_705_116_800_000_000_000;

/// The last instant that `time::OffsetDateTime` holds: 9999-12-31 23:59:59.999999999 UTC, in
/// nanoseconds since the Unix epoch.
pub const MAX_UNIX_NANOS: i128 = 253_402_300_799_999_999_999;

/// A span is never negative.
pub proof fn lemma_duration_nonnegative(d: Duration)
    ensures
        d@ >= 0,
{
}

/// Whether `time::OffsetDateTime` can hold the UTC instant this many nanoseconds after the
/// Unix epoch (without its `large-dates` feature, years run from -9999 to 9999).
pub open spec fn utc_representable(unix_nanos: int) -> bool {
    MIN_UNIX_NANOS <= unix_nanos <= MAX_UNIX_NANOS
}

/// An instant in UTC, held as nanoseconds since the Unix epoch, within the range that
/// `time::OffsetDateTime` can hold.
#[derive(Debug, Clone, Copy, PartialEq, Eq, Structural)]
pub struct Timestamp {
    unix_nanos: i128,
}

impl View for Timestamp {
    type V = int;

    /// Nanoseconds since the Unix epoch.
    closed spec fn view(&self) -> int {
        self.unix_nanos as int
    }
}

/// Wraps `time::OffsetDateTime::now_utc` followed by `unix_timestamp_nanos`: the current
/// instant, which `OffsetDateTime` holds.
#[verifier::external_body]
fn now_unix_nanos() -> (r: i128)
    ensures
        utc_representable(r as int),
{
    time::OffsetDateTime::now_utc().unix_timestamp_nanos()
}

/// Wraps `time::OffsetDateTime::from_unix_timestamp_nanos`: it succeeds exactly when
/// `OffsetDateTime` can hold the instant.
#[verifier::external_body]
fn representable_unix_nanos(unix_nanos: i128) -> (r: bool)
    ensures
        r == utc_representable(unix_nanos as int),
{
    time::OffsetDateTime::from_unix_timestamp_nanos(unix_nanos).is_ok()
}

/// Wraps `time::OffsetDateTime::checked_add` on a UTC instant: the instant `secs` seconds and
/// `nanos` nanoseconds later when `OffsetDateTime` can hold it, else `None`.
#[verifier::external_body]
fn checked_add_unix_nanos(unix_nanos: i128, secs: u64, nanos: u32) -> (r: Option<i128>)
    requires
        utc_representable(unix_nanos as int),
        nanos < NANOS_PER_SEC,
    ensures
        match r {
            Some(later) => utc_representable(later as int)
                && later as int == unix_nanos as int + secs as int * 1_000_000_000 + nanos as int,
            None => !utc_representable(unix_nanos as int + secs as int * 1_000_000_000 + nanos as int),
        },
{
    let start = time::OffsetDateTime::from_unix_timestamp_nanos(unix_nanos).ok()?;
    let span = time::Duration::new(i64::try_from(secs).ok()?, i32::try_from(nanos).ok()?);
    Some(start.checked_add(span)?.unix_timestamp_nanos())
}

impl Timestamp {
    #[verifier::type_invariant]
    closed spec fn inv(self) -> bool {
        utc_representable(self.unix_nanos as int)
    }

    /// Whether the instant is one that `Timestamp` holds.
    pub open spec fn representable(unix_nanos: int) -> bool {
        utc_representable(unix_nanos)
    }

    /// The current instant, which `OffsetDateTime` holds.
    pub fn now() -> (r: Self)
        ensures
            Self::representable(r@),
    {
        Timestamp { unix_nanos: now_unix_nanos() }
    }

    /// The instant `unix_nanos` nanoseconds after the Unix epoch, if `OffsetDateTime` can
    /// hold it.
    pub fn from_unix_nanos(unix_nanos: i128) -> (r: Option<Self>)
        ensures
            match r {
                Some(t) => t@ == unix_nanos,
                None => !Self::representable(unix_nanos as int),
            },
            r is Some <==> Self::representable(unix_nanos as int),
    {
        if representable_unix_nanos(unix_nanos) {
            Some(Timestamp { unix_nanos })
        } else {
            None
        }
    }

    /// Nanoseconds since the Unix epoch.
    pub fn unix_nanos(&self) -> (r: i128)
        ensures
            r == self@,
            Self::representable(r as int),
    {
        proof {
            use_type_invariant(self);
        }
        self.unix_nanos
    }

    /// The instant `span` later, if it can be held.
    pub fn checked_add(&self, span: Duration) -> (r: Option<Self>)
        ensures
            match r {
                Some(t) => t@ == self@ + span@,
                None => !Self::representable(self@ + span@),
            },
    {
        proof {
            use_type_invariant(self);
        }
        let secs = span.as_secs();
        let nanos = span.subsec_nanos();
        match checked_add_unix_nanos(self.unix_nanos, secs, nanos) {
            Some(later) => Some(Timestamp { unix_nanos: later }),
            None => None,
        }
    }
}

}
