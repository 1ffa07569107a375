//! Instants and lifetimes as plain numbers, and the calendar arithmetic that chrono does on them.
use vstd::prelude::*;

verus! {

pub const NANOS_PER_SEC: u32 = 1_000_000_000;

/// The first second that a UTC date and time can have: the start of the year -262143.
pub const MIN_SECS: i64 = -8_334_601_228_800;

/// The last second that a UTC date and time can have: the end of the year 262142.
pub const MAX_SECS: i64 = 8_210_266_876_799;

/// The start of the year 0.
pub const YEAR_0_SECS: i64 = -62_167_219_200;

/// The last second of the year 9999.
pub const YEAR_9999_SECS: i64 = 253_402_300_799;

/// The seconds of the longest lifetime that can be added to an instant.
pub const MAX_DELTA_SECS: u64 = 9_223_372_036_854_775;

/// The nanoseconds of the longest lifetime that can be added to an instant.
pub const MAX_DELTA_NANOS: u32 = 807_000_000;

/// An instant in UTC: whole seconds since the start of 1970, and nanoseconds. A leap second is the
/// second before it with a billion nanoseconds more.
#[derive(Clone, Copy, Debug, PartialEq, Eq, Structural)]
pub struct Timestamp {
    pub secs: i64,
    pub nanos: u32,
}

/// A length of time: whole seconds and nanoseconds.
#[derive(Clone, Copy, Debug, PartialEq, Eq, Structural)]
pub struct Ttl {
    pub secs: u64,
    pub nanos: u32,
}

impl Timestamp {
    /// Whether a UTC date and time exists for this instant.
    pub open spec fn valid(self) -> bool {
        &&& MIN_SECS <= self.secs <= MAX_SECS
        &&& self.nanos < 2 * NANOS_PER_SEC
        &&& self.nanos >= NANOS_PER_SEC ==> self.secs as int % 60 == 59
    }

    /// Whether this instant is valid and lies outside any leap second, as each reading of the
    /// system clock does.
    pub open spec fn is_clock_reading(self) -> bool {
        &&& MIN_SECS <= self.secs <= MAX_SECS
        &&& self.nanos < NANOS_PER_SEC
    }

    /// Whether a call of the system clock returned this instant. Nothing but such a call tells that
    /// of an instant.
    pub closed spec fn was_read_from_the_clock(self) -> bool {
        call_ensures(utc_now, (), self)
    }

    /// Whether the year of this instant has four digits and no sign.
    pub open spec fn has_four_digit_year(self) -> bool {
        YEAR_0_SECS <= self.secs <= YEAR_9999_SECS
    }

    /// What can be read of this instant from its text: the instant itself where its year has four
    /// digits, and nothing elsewhere.
    pub open spec fn as_read(self) -> Option<Timestamp> {
        if self.has_four_digit_year() {
            Some(self)
        } else {
            None
        }
    }

    /// Whether this instant is `other` or lies before it.
    pub open spec fn at_or_before(self, other: Timestamp) -> bool {
        self.secs < other.secs || (self.secs == other.secs && self.nanos <= other.nanos)
    }

    /// Whether this instant is `now` or lies before it.
    pub fn has_passed(self, now: Timestamp) -> (r: bool)
        ensures
            r == self.at_or_before(now),
    {
        self.secs < now.secs || (self.secs == now.secs && self.nanos <= now.nanos)
    }
}

impl Ttl {
    /// Whether the nanoseconds make up less than a second.
    pub open spec fn valid(self) -> bool {
        self.nanos < NANOS_PER_SEC
    }

    /// Whether this lifetime is short enough to be added to an instant at all.
    pub open spec fn is_addable(self) -> bool {
        self.secs < MAX_DELTA_SECS || (self.secs == MAX_DELTA_SECS && self.nanos
            <= MAX_DELTA_NANOS)
    }
}

/// The seconds of the instant that lies `ttl` after `start`.
pub open spec fn sum_secs(start: Timestamp, ttl: Ttl) -> int {
    start.secs + ttl.secs + if start.nanos + ttl.nanos < NANOS_PER_SEC {
        0int
    } else {
        1int
    }
}

/// The instant that lies `ttl` after `start`, where no leap second is involved.
pub open spec fn sum(start: Timestamp, ttl: Ttl) -> Timestamp {
    Timestamp {
        secs: sum_secs(start, ttl) as i64,
        nanos: ((start.nanos + ttl.nanos) % NANOS_PER_SEC as int) as u32,
    }
}

/// Whether the end of a lifetime that begins at `start` can be told: there is none, or it is too
/// long to count, or it ends at an instant that has a date.
pub open spec fn expiry_in_range(start: Timestamp, ttl: Option<Ttl>) -> bool {
    ttl matches Some(d) ==> d.is_addable() ==> sum_secs(start, d) <= MAX_SECS
}

/// When something expires that is stored at `start` for `ttl`. One without a lifetime, or with one
/// too long to be added to any instant, never expires.
pub open spec fn expiry(start: Timestamp, ttl: Option<Ttl>) -> Option<Timestamp> {
    match ttl {
        Some(d) if d.is_addable() => Some(sum(start, d)),
        _ => None,
    }
}

/// Whether something with the given expiry is expired at `now`.
pub open spec fn is_expired(expires_at: Option<Timestamp>, now: Timestamp) -> bool {
    expires_at matches Some(t) && t.at_or_before(now)
}

/// What chrono's `to_rfc3339` writes for the instant.
pub uninterp spec fn rfc3339_text(secs: i64, nanos: u32) -> Seq<char>;

/// The instant that chrono's `parse_from_rfc3339` reads from the text, if it accepts it.
pub uninterp spec fn rfc3339_instant(text: Seq<char>) -> Option<(i64, u32)>;

/// What `Debug` of `std::time::Duration` writes for the length of time.
pub uninterp spec fn duration_debug(secs: u64, nanos: u32) -> Seq<char>;

/// The instant that an RFC 3339 text stands for, if it is one.
pub open spec fn instant_of(text: Seq<char>) -> Option<Timestamp> {
    match rfc3339_instant(text) {
        Some((secs, nanos)) => Some(Timestamp { secs, nanos }),
        None => None,
    }
}

/// Calls `chrono::Utc::now`, which reads the system clock. Any instant with a date may come back,
/// and never one within a leap second. A clock set before 1970 makes the call panic.
#[verifier::external_body]
fn utc_now() -> (r: Timestamp)
    ensures
        r.is_clock_reading(),
{
    let now = chrono::Utc::now();
    Timestamp { secs: now.timestamp(), nanos: now.timestamp_subsec_nanos() }
}

/// Reads the clock where the instant is needed. Where it plays no part, the clock is left alone, and
/// the start of 1970 stands in.
pub(crate) fn now_if(needed: bool) -> (r: Timestamp)
    ensures
        r.is_clock_reading(),
        needed ==> r.was_read_from_the_clock(),
        !needed ==> r == (Timestamp { secs: 0, nanos: 0 }),
{
    if needed {
        utc_now()
    } else {
        Timestamp { secs: 0, nanos: 0 }
    }
}

/// Calls `chrono::TimeDelta::from_std`, which keeps the seconds and nanoseconds of a length of
/// time of at most `i64::MAX` milliseconds, and refuses a longer one.
#[verifier::external_body]
fn time_delta_from_std(ttl: Ttl) -> (r: Option<(i64, i32)>)
    requires
        ttl.valid(),
    ensures
        r == (if ttl.is_addable() {
            Some((ttl.secs as i64, ttl.nanos as i32))
        } else {
            None
        }),
{
    chrono::TimeDelta::from_std(std::time::Duration::new(ttl.secs, ttl.nanos)).ok().map(
        |d| (d.num_seconds(), d.subsec_nanos()),
    )
}

/// Calls the `+` of `chrono::DateTime<Utc>` and `chrono::TimeDelta`. It adds the seconds and
/// nanoseconds, and carries a full second over; a sum behind the last date is left out, for there
/// it panics.
#[verifier::external_body]
fn datetime_plus(start: Timestamp, secs: i64, nanos: i32) -> (r: Timestamp)
    requires
        start.is_clock_reading(),
        0 <= nanos < NANOS_PER_SEC,
        0 <= secs,
        (Ttl { secs: secs as u64, nanos: nanos as u32 }).is_addable(),
        sum_secs(start, Ttl { secs: secs as u64, nanos: nanos as u32 }) <= MAX_SECS,
    ensures
        r == sum(start, Ttl { secs: secs as u64, nanos: nanos as u32 }),
{
    let from = chrono::DateTime::from_timestamp(start.secs, start.nanos).unwrap();
    let to = from + chrono::TimeDelta::new(secs, nanos as u32).unwrap();
    Timestamp { secs: to.timestamp(), nanos: to.timestamp_subsec_nanos() }
}

/// Calls `to_rfc3339` of `chrono::DateTime<Utc>`. Its text is a function of the instant. Where the
/// year has four digits, `parse_from_rfc3339` reads the same instant back from it. Any other year is
/// written with a sign before it, and then `parse_from_rfc3339` does not accept the text.
#[verifier::external_body]
pub(crate) fn to_rfc3339(t: Timestamp) -> (r: String)
    requires
        t.valid(),
    ensures
        r@ == rfc3339_text(t.secs, t.nanos),
        t.has_four_digit_year() ==> rfc3339_instant(r@) == Some((t.secs, t.nanos)),
        !t.has_four_digit_year() ==> rfc3339_instant(r@) is None,
{
    chrono::DateTime::from_timestamp(t.secs, t.nanos).unwrap().to_rfc3339()
}

/// Calls `chrono::DateTime::parse_from_rfc3339` and takes what it reads to UTC. Whether it accepts
/// the text, and which instant it reads, is a function of the text alone.
#[verifier::external_body]
pub(crate) fn parse_rfc3339(text: &str) -> (r: Option<Timestamp>)
    ensures
        r == instant_of(text@),
{
    chrono::DateTime::parse_from_rfc3339(text).ok().map(|d| d.with_timezone(&chrono::Utc)).map(
        |d| Timestamp { secs: d.timestamp(), nanos: d.timestamp_subsec_nanos() },
    )
}

/// Calls `Debug` of `std::time::Duration`. Its text is a function of the length of time.
#[verifier::external_body]
pub(crate) fn duration_debug_text(ttl: Ttl) -> (r: String)
    requires
        ttl.valid(),
    ensures
        r@ == duration_debug(ttl.secs, ttl.nanos),
{
    format!("{:?}", std::time::Duration::new(ttl.secs, ttl.nanos))
}

/// Whether the end of a lifetime that begins at `start` can be told.
pub(crate) fn check_expiry(start: Timestamp, ttl: Option<Ttl>) -> (r: bool)
    requires
        start.is_clock_reading(),
        ttl matches Some(d) ==> d.valid(),
    ensures
        r == expiry_in_range(start, ttl),
{
    match ttl {
        None => true,
        Some(d) => match time_delta_from_std(d) {
            None => true,
            Some((secs, nanos)) => {
                let carry: i64 = if start.nanos + nanos as u32 >= NANOS_PER_SEC {
                    1
                } else {
                    0
                };
                start.secs + secs + carry <= MAX_SECS
            },
        },
    }
}

/// When something expires that is stored at `start` for `ttl`.
pub(crate) fn expiry_of(start: Timestamp, ttl: Option<Ttl>) -> (r: Option<Timestamp>)
    requires
        start.is_clock_reading(),
        ttl matches Some(d) ==> d.valid(),
        expiry_in_range(start, ttl),
    ensures
        r == expiry(start, ttl),
        r matches Some(t) ==> t.is_clock_reading(),
{
    match ttl {
        None => None,
        Some(d) => match time_delta_from_std(d) {
            None => None,
            Some((secs, nanos)) => Some(datetime_plus(start, secs, nanos)),
        },
    }
}

/// What has expired stays expired.
pub proof fn law_expired_stays_expired(
    expires_at: Option<Timestamp>,
    now: Timestamp,
    later: Timestamp,
)
    requires
        is_expired(expires_at, now),
        now.at_or_before(later),
    ensures
        is_expired(expires_at, later),
{
}

/// What is stored without a lifetime never expires. With one that is not zero, it is not yet
/// expired at the instant at which it is stored, and with one of zero it is.
pub proof fn law_lifetime_begins_when_stored(start: Timestamp, ttl: Ttl, now: Timestamp)
    requires
        start.is_clock_reading(),
        ttl.valid(),
        expiry_in_range(start, Some(ttl)),
    ensures
        !is_expired(expiry(start, None), now),
        is_expired(expiry(start, Some(ttl)), start) <==> ttl.secs == 0 && ttl.nanos == 0,
{
}

} // verus!
