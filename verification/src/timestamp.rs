//! Points in time with a fixed offset from UTC, and their two textual forms.
//!
//! A [`Timestamp`] keeps what `chrono::DateTime<chrono::FixedOffset>` keeps:
//! the instant as seconds and nanoseconds since the Unix epoch, and the offset
//! of the local clock from UTC in seconds. Calendar arithmetic is left to
//! `chrono`; the functions here decide which values may be handed to it.

use vstd::prelude::*;

verus! {

/// The first second that `chrono` can represent: midnight of 1 January of
/// the year -262143, UTC.
pub const MIN_SECONDS: i64 = -8_334_601_228_800;

/// The last second that `chrono` can represent: 23:59:59 of 31 December of
/// the year 262142, UTC.
pub const MAX_SECONDS: i64 = 8_210_266_876_799;

/// The pattern of the clock text: day, month and year, then the time of day.
pub open spec fn clock_pattern() -> Seq<char> {
    "%d-%m-%Y %H:%M:%S"@
}

/// What `chrono` writes for the instant `seconds` and `nanos` after the Unix
/// epoch, seen on a clock `offset` seconds ahead of UTC, under a `strftime`
/// pattern.
pub uninterp spec fn formatted_time(seconds: int, nanos: int, offset: int, pattern: Seq<char>) -> Seq<
    char,
>;

/// The RFC 3339 text that `chrono` writes for the instant `seconds` and
/// `nanos` after the Unix epoch, seen on a clock `offset` seconds ahead of UTC.
pub uninterp spec fn rfc3339_text(seconds: int, nanos: int, offset: int) -> Seq<char>;

/// The seconds, nanoseconds and offset that `chrono` reads from an RFC 3339
/// text, or `None` where it rejects the text.
pub uninterp spec fn rfc3339_parts(text: Seq<char>) -> Option<(int, int, int)>;

/// The mathematical value of a [`Timestamp`].
pub ghost struct Moment {
    /// Whole seconds since the Unix epoch, leap seconds not counted.
    pub seconds: int,
    /// Nanoseconds since the last whole second. A value of a thousand
    /// million or more stands for a leap second.
    pub nanos: int,
    /// Seconds by which the local clock is ahead of UTC.
    pub offset: int,
}

impl Moment {
    /// Whether `chrono` can represent the moment: the instant lies within
    /// its calendar, a leap second only follows the 59th second of a minute,
    /// and the offset is less than a day.
    pub open spec fn valid(self) -> bool {
        &&& MIN_SECONDS <= self.seconds <= MAX_SECONDS
        &&& 0 <= self.nanos < 2_000_000_000
        &&& (self.nanos >= 1_000_000_000 ==> self.seconds % 60 == 59)
        &&& -86_400 < self.offset < 86_400
    }

    /// Whether the local date, too, lies within the calendar of `chrono`.
    pub open spec fn local_in_range(self) -> bool {
        MIN_SECONDS <= self.seconds + self.offset <= MAX_SECONDS
    }

    /// The clock text: `dd-mm-yyyy HH:MM:SS` in local time.
    pub open spec fn clock_text(self) -> Seq<char> {
        formatted_time(self.seconds, self.nanos, self.offset, clock_pattern())
    }

    /// The RFC 3339 text, which exists where the local date can be written.
    pub open spec fn rfc3339(self) -> Option<Seq<char>> {
        if self.local_in_range() {
            Some(rfc3339_text(self.seconds, self.nanos, self.offset))
        } else {
            None
        }
    }

    /// The moment that an RFC 3339 text stands for, if it stands for one
    /// that can be represented.
    pub open spec fn of_rfc3339(text: Seq<char>) -> Option<Moment> {
        match rfc3339_parts(text) {
            Some((seconds, nanos, offset)) => {
                let moment = Moment { seconds, nanos, offset };
                if moment.valid() {
                    Some(moment)
                } else {
                    None
                }
            },
            None => None,
        }
    }
}

/// Reads the clock with `chrono::Local::now` and takes the result apart.
/// Whatever the clock says, `chrono` only hands out instants within its
/// calendar, with less than a thousand million nanoseconds, and offsets of
/// less than a day.
#[verifier::external_body]
fn local_now() -> (parts: (i64, u32, i32))
    ensures
        (Moment { seconds: parts.0 as int, nanos: parts.1 as int, offset: parts.2 as int }).valid(),
{
    let now = chrono::Local::now();
    (now.timestamp(), now.timestamp_subsec_nanos(), now.offset().local_minus_utc())
}

/// Builds the `chrono::DateTime` with `DateTime::from_timestamp` and
/// `FixedOffset::east_opt`, and writes it with `DateTime::format`. The parts
/// must be valid, so that both constructors succeed, and the pattern is the
/// clock pattern, which `chrono` can always write. The contract names the
/// text.
#[verifier::external_body]
fn format_with_pattern(seconds: i64, nanos: u32, offset: i32, pattern: &str) -> (text: String)
    requires
        (Moment { seconds: seconds as int, nanos: nanos as int, offset: offset as int }).valid(),
        pattern@ == clock_pattern(),
    ensures
        text@ == formatted_time(seconds as int, nanos as int, offset as int, pattern@),
{
    let utc = chrono::DateTime::from_timestamp(seconds, nanos).unwrap();
    let zone = chrono::FixedOffset::east_opt(offset).unwrap();
    utc.with_timezone(&zone).format(pattern).to_string()
}

/// Builds the `chrono::DateTime` as above and writes it with
/// `DateTime::to_rfc3339_opts`: as many fractional digits as the nanoseconds
/// need, and `Z` for a zero offset. The parts must be valid and the local
/// date within the calendar, where `chrono` does not panic. The contract
/// names the text.
#[verifier::external_body]
fn format_rfc3339(seconds: i64, nanos: u32, offset: i32) -> (text: String)
    requires
        (Moment { seconds: seconds as int, nanos: nanos as int, offset: offset as int }).valid(),
        (Moment {
            seconds: seconds as int,
            nanos: nanos as int,
            offset: offset as int,
        }).local_in_range(),
    ensures
        text@ == rfc3339_text(seconds as int, nanos as int, offset as int),
{
    let utc = chrono::DateTime::from_timestamp(seconds, nanos).unwrap();
    let zone = chrono::FixedOffset::east_opt(offset).unwrap();
    utc.with_timezone(&zone).to_rfc3339_opts(chrono::SecondsFormat::AutoSi, true)
}

/// Parses a text as `chrono::DateTime<chrono::FixedOffset>` through its
/// `FromStr` and takes the result apart. The contract names the parts.
#[verifier::external_body]
fn parse_rfc3339(text: &str) -> (parts: Option<(i64, u32, i32)>)
    ensures
        rfc3339_parts(text@) == match parts {
            Some(found) => Some((found.0 as int, found.1 as int, found.2 as int)),
            None => None,
        },
{
    match text.parse::<chrono::DateTime<chrono::FixedOffset>>() {
        Ok(at) => Some((at.timestamp(), at.timestamp_subsec_nanos(), at.offset().local_minus_utc())),
        Err(_) => None,
    }
}

/// An instant together with the offset of the clock that showed it.
#[derive(Clone, Copy, Debug, PartialEq, Eq)]
pub struct Timestamp {
    seconds: i64,
    nanos: u32,
    offset: i32,
}

impl View for Timestamp {
    type V = Moment;

    closed spec fn view(&self) -> Moment {
        Moment { seconds: self.seconds as int, nanos: self.nanos as int, offset: self.offset as int }
    }
}

impl Timestamp {
    #[verifier::type_invariant]
    spec fn representable(self) -> bool {
        self@.valid()
    }

    /// A timestamp from its parts, where they make a valid [`Moment`].
    pub fn new(seconds: i64, nanos: u32, offset: i32) -> (made: Option<Timestamp>)
        ensures
            match made {
                Some(timestamp) => timestamp@ == (Moment {
                    seconds: seconds as int,
                    nanos: nanos as int,
                    offset: offset as int,
                }) && timestamp@.valid(),
                None => !(Moment {
                    seconds: seconds as int,
                    nanos: nanos as int,
                    offset: offset as int,
                }).valid(),
            },
    {
        if seconds < MIN_SECONDS || seconds > MAX_SECONDS {
            return None;
        }
        if offset <= -86_400 || offset >= 86_400 {
            return None;
        }
        if nanos >= 2_000_000_000 {
            return None;
        }
        if nanos >= 1_000_000_000 && (seconds - MIN_SECONDS) % 60 != 59 {
            return None;
        }
        Some(Timestamp { seconds, nanos, offset })
    }

    /// The present moment on the local clock.
    pub fn now() -> (stamp: Timestamp)
        ensures
            stamp@.valid(),
    {
        let parts = local_now();
        Timestamp { seconds: parts.0, nanos: parts.1, offset: parts.2 }
    }

    /// Whole seconds since the Unix epoch.
    pub fn seconds(&self) -> (seconds: i64)
        ensures
            seconds == self@.seconds,
    {
        self.seconds
    }

    /// Nanoseconds since the last whole second.
    pub fn nanos(&self) -> (nanos: u32)
        ensures
            nanos == self@.nanos,
    {
        self.nanos
    }

    /// Seconds by which the local clock is ahead of UTC.
    pub fn offset(&self) -> (offset: i32)
        ensures
            offset == self@.offset,
    {
        self.offset
    }

    /// The clock text of the timestamp: `dd-mm-yyyy HH:MM:SS` in local time.
    pub fn to_clock_text(&self) -> (text: String)
        ensures
            text@ == self@.clock_text(),
    {
        proof {
            use_type_invariant(self);
        }
        format_with_pattern(self.seconds, self.nanos, self.offset, "%d-%m-%Y %H:%M:%S")
    }

    /// The RFC 3339 text of the timestamp, or `None` where the local date
    /// falls outside the calendar and cannot be written.
    pub fn to_rfc3339(&self) -> (text: Option<String>)
        ensures
            match text {
                Some(written) => self@.rfc3339() == Some(written@),
                None => self@.rfc3339() is None,
            },
    {
        proof {
            use_type_invariant(self);
        }
        let local = self.seconds + self.offset as i64;
        if local < MIN_SECONDS || local > MAX_SECONDS {
            None
        } else {
            Some(format_rfc3339(self.seconds, self.nanos, self.offset))
        }
    }

    /// Reads an RFC 3339 text. `None` where `chrono` rejects the text or
    /// what it reads is no valid [`Moment`].
    pub fn from_rfc3339(text: &str) -> (read: Option<Timestamp>)
        ensures
            match read {
                Some(timestamp) => Moment::of_rfc3339(text@) == Some(timestamp@),
                None => Moment::of_rfc3339(text@) is None,
            },
    {
        match parse_rfc3339(text) {
            Some(parts) => Timestamp::new(parts.0, parts.1, parts.2),
            None => None,
        }
    }
}

} // verus!
