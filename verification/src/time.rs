//! Points in time.

use vstd::prelude::*;

verus! {

/// The range of the seconds since 1970 that a point in time may have.
pub const MIN_SECS: i64 = -8_334_601_228_800;

/// The end of that range.
pub const MAX_SECS: i64 = 8_210_266_876_799;

/// Whether a number of seconds since 1970 and of nanoseconds in the second name
/// a point in time. The nanoseconds of a leap second run on from those of the
/// second before it, which ends a minute.
pub open spec fn valid_instant(secs: int, nanos: int) -> bool {
    &&& MIN_SECS <= secs <= MAX_SECS
    &&& 0 <= nanos < 2_000_000_000
    &&& nanos >= 1_000_000_000 ==> secs % 60 == 59
}

/// A point in time.
#[derive(Debug, PartialEq, Eq, Clone, Copy, Structural)]
pub struct Timestamp {
    secs: i64,
    nanos: u32,
}

/// What `chrono::DateTime::parse_from_rfc3339` reads from a text: the seconds
/// since 1970 and the nanoseconds, in UTC.
pub uninterp spec fn rfc3339_instant(text: Seq<char>) -> Option<(i64, u32)>;

/// What `chrono::DateTime::to_rfc3339` writes for a point in time in UTC.
pub uninterp spec fn rfc3339_text(secs: i64, nanos: u32) -> Seq<char>;

/// `chrono::DateTime::parse_from_rfc3339`, with the result taken to UTC. What is
/// read goes by the text alone, and is a point in time.
#[verifier::external_body]
fn parse_rfc3339(text: &str) -> (r: Option<(i64, u32)>)
    ensures
        r == rfc3339_instant(text@),
        r matches Some(p) ==> valid_instant(p.0 as int, p.1 as int),
{
    match chrono::DateTime::parse_from_rfc3339(text) {
        Ok(t) => {
            let utc = t.with_timezone(&chrono::Utc);
            Some((utc.timestamp(), utc.timestamp_subsec_nanos()))
        },
        Err(_) => None,
    }
}

/// `chrono::DateTime::to_rfc3339` of the point in time in UTC. What is written
/// goes by the point in time alone.
#[verifier::external_body]
fn format_rfc3339(secs: i64, nanos: u32) -> (r: String)
    requires
        valid_instant(secs as int, nanos as int),
    ensures
        r@ == rfc3339_text(secs, nanos),
{
    chrono::DateTime::<chrono::Utc>::from_timestamp(secs, nanos).unwrap().to_rfc3339()
}

/// `chrono::Utc::now`: some point in time.
#[verifier::external_body]
fn current_instant() -> (r: (i64, u32))
    ensures
        valid_instant(r.0 as int, r.1 as int),
{
    let now = chrono::Utc::now();
    (now.timestamp(), now.timestamp_subsec_nanos())
}

/// How many nanoseconds `a` lies behind `b`. A leap second between the two
/// counts where the time of day of the one that holds it is the earlier one.
pub open spec fn nanos_between(a: (int, int), b: (int, int)) -> int {
    let day_a = a.0 % 86_400;
    let day_b = b.0 % 86_400;
    let leap = if day_a > day_b && b.1 >= 1_000_000_000 {
        1int
    } else if day_a < day_b && a.1 >= 1_000_000_000 {
        -1int
    } else {
        0int
    };
    (a.0 - b.0 + leap) * 1_000_000_000 + a.1 - b.1
}

impl Timestamp {
    #[verifier::type_invariant]
    spec fn well_formed(self) -> bool {
        valid_instant(self.secs as int, self.nanos as int)
    }

    /// The seconds since 1970.
    pub closed spec fn spec_secs(&self) -> i64 {
        self.secs
    }

    /// The nanoseconds in the second.
    pub closed spec fn spec_nanos(&self) -> u32 {
        self.nanos
    }

    /// The seconds since 1970 and the nanoseconds in the second.
    pub open spec fn view(&self) -> (int, int) {
        (self.spec_secs() as int, self.spec_nanos() as int)
    }

    /// A point in time is its seconds and its nanoseconds.
    pub proof fn same_parts(a: Timestamp, b: Timestamp)
        ensures
            a.view() == b.view() ==> a == b,
    {
    }

    /// The point in time with the given seconds and nanoseconds, if it is one.
    pub fn new(secs: i64, nanos: u32) -> (r: Option<Timestamp>)
        ensures
            match r {
                Some(t) => valid_instant(secs as int, nanos as int) && t.spec_secs() == secs
                    && t.spec_nanos() == nanos,
                None => !valid_instant(secs as int, nanos as int),
            },
    {
        if secs < MIN_SECS || secs > MAX_SECS || nanos >= 2_000_000_000 {
            return None;
        }
        if nanos >= 1_000_000_000 {
            let shifted: u64 = (secs + 8_334_601_228_800) as u64;
            proof {
                assert((secs + 8_334_601_228_800int) % 60 == secs % 60);
            }
            if shifted % 60 != 59 {
                return None;
            }
        }
        Some(Timestamp { secs, nanos })
    }

    /// The seconds since 1970.
    pub fn secs(&self) -> (r: i64)
        ensures
            r == self.spec_secs(),
    {
        self.secs
    }

    /// The nanoseconds in the second.
    pub fn nanos(&self) -> (r: u32)
        ensures
            r == self.spec_nanos(),
    {
        self.nanos
    }

    /// The current point in time.
    pub fn now() -> (r: Timestamp)
        ensures
            valid_instant(r.spec_secs() as int, r.spec_nanos() as int),
    {
        let (secs, nanos) = current_instant();
        Timestamp { secs, nanos }
    }

    /// Reads a date and time as RFC 3339 writes them.
    pub fn parse(text: &str) -> (r: Option<Timestamp>)
        ensures
            match (r, rfc3339_instant(text@)) {
                (Some(t), Some(p)) => t.spec_secs() == p.0 && t.spec_nanos() == p.1,
                (None, None) => true,
                _ => false,
            },
    {
        match parse_rfc3339(text) {
            Some((secs, nanos)) => Some(Timestamp { secs, nanos }),
            None => None,
        }
    }

    /// The date and time as RFC 3339 writes them.
    pub fn to_rfc3339(&self) -> (r: String)
        ensures
            r@ == rfc3339_text(self.spec_secs(), self.spec_nanos()),
    {
        proof {
            use_type_invariant(self);
        }
        format_rfc3339(self.secs, self.nanos)
    }

    /// Whether this point in time is the earlier one.
    pub open spec fn before(self, other: Timestamp) -> bool {
        self.spec_secs() < other.spec_secs() || (self.spec_secs() == other.spec_secs()
            && self.spec_nanos() < other.spec_nanos())
    }

    /// Whether this point in time is the earlier one.
    pub fn is_before(&self, other: &Timestamp) -> (r: bool)
        ensures
            r == self.before(*other),
    {
        self.secs < other.secs || (self.secs == other.secs && self.nanos < other.nanos)
    }

    /// How many nanoseconds this point in time lies behind the other one.
    pub fn since(&self, other: &Timestamp) -> (r: i128)
        ensures
            r == nanos_between(self.view(), other.view()),
    {
        proof {
            use_type_invariant(self);
            use_type_invariant(other);
        }
        let a: u64 = (self.secs + 8_334_601_228_800) as u64 % 86_400;
        let b: u64 = (other.secs + 8_334_601_228_800) as u64 % 86_400;
        proof {
            assert(8_334_601_228_800int % 86_400 == 0);
            assert(a == self.secs as int % 86_400);
            assert(b == other.secs as int % 86_400);
        }
        let leap: i64 = if a > b && other.nanos >= 1_000_000_000 {
            1
        } else if a < b && self.nanos >= 1_000_000_000 {
            -1
        } else {
            0
        };
        let secs: i64 = self.secs - other.secs + leap;
        (secs as i128) * 1_000_000_000 + (self.nanos as i128) - (other.nanos as i128)
    }
}

/// The longest span of days that can be counted in milliseconds.
pub const MAX_DAYS: i64 = 106_751_991_167;

/// The longest span of hours that can be counted in milliseconds.
pub const MAX_HOURS: i64 = 2_562_047_788_015;

/// A span of days in nanoseconds; a negative one counts as none.
pub open spec fn days_in_nanos(days: int) -> int {
    (if days > 0 {
        days
    } else {
        0
    }) * 86_400_000_000_000
}

/// A span of hours in nanoseconds; a negative one counts as none.
pub open spec fn hours_in_nanos(hours: int) -> int {
    (if hours > 0 {
        hours
    } else {
        0
    }) * 3_600_000_000_000
}

/// A span of days in nanoseconds; a negative one counts as none.
pub fn nanos_of_days(days: i64) -> (r: i128)
    ensures
        r == days_in_nanos(days as int),
{
    if days > 0 {
        (days as i128) * 86_400_000_000_000
    } else {
        0
    }
}

/// A span of hours in nanoseconds; a negative one counts as none.
pub fn nanos_of_hours(hours: i64) -> (r: i128)
    ensures
        r == hours_in_nanos(hours as int),
{
    if hours > 0 {
        (hours as i128) * 3_600_000_000_000
    } else {
        0
    }
}

} // verus!
