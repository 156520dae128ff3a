//! Timestamped records: the stored form and the form that goes on the wire.

use time::ParseError;
use vstd::prelude::*;
use vstd::string::*;

verus! {

/// The first instant a record can hold, in seconds since 1970-01-01T00:00:00Z.
/// One day after the epoch, so that no offset moves the local time before it.
pub const EARLIEST_EPOCH_SECOND: i64 = 86_400;

/// The last instant a record can hold: 9999-12-30T23:59:59Z, one day short of
/// the last four-digit year's end, so that no offset moves the local time past it.
pub const LATEST_EPOCH_SECOND: i64 = 253_402_214_399;

/// Whether an instant, in seconds since the epoch, can be held by a record.
pub open spec fn valid_instant(epoch_seconds: int) -> bool {
    EARLIEST_EPOCH_SECOND <= epoch_seconds <= LATEST_EPOCH_SECOND
}

/// Whether a UTC offset, in seconds east of Greenwich, can be held by a
/// record: a whole number of minutes, less than a day either way.
pub open spec fn valid_offset(offset_seconds: int) -> bool {
    -86_400 < offset_seconds < 86_400 && offset_seconds % 60 == 0
}

#[verifier::external_type_specification]
#[verifier::external_body]
pub struct ExParseError(ParseError);

/// The date and time of day that a clock set to UTC shows `local_seconds`
/// after the epoch, written as `YYYY-MM-DDTHH:MM:SS`, as the `time` crate
/// writes it.
pub uninterp spec fn calendar_text(local_seconds: int) -> Seq<char>;

/// `time::at_utc` followed by `Tm::strftime`: breaks `local_seconds` down into
/// calendar fields and writes them in the format `%Y-%m-%dT%H:%M:%S`.
///
/// The format names only fields that the crate knows, and the weekday and
/// month that the breakdown fills in are in range, so the call is trusted to
/// succeed. Its text is trusted to depend on the number alone; it is given the
/// name `calendar_text` and nothing more is claimed of it. The bounds keep the
/// year within 1970 and 9999, where the breakdown is the same on every
/// platform whose C `time_t` has 64 bits.
#[verifier::external_body]
fn format_calendar(local_seconds: i64) -> (text: Result<String, ParseError>)
    requires
        0 <= local_seconds <= 253_402_300_799,
    ensures
        text is Ok,
        text matches Ok(written) ==> written@ == calendar_text(local_seconds as int),
{
    let broken_down = time::at_utc(time::Timespec::new(local_seconds, 0));
    broken_down.strftime("%Y-%m-%dT%H:%M:%S").map(|formatted| formatted.to_string())
}

/// One decimal digit.
pub open spec fn digit_text(value: int) -> Seq<char> {
    if value == 0 {
        "0"@
    } else if value == 1 {
        "1"@
    } else if value == 2 {
        "2"@
    } else if value == 3 {
        "3"@
    } else if value == 4 {
        "4"@
    } else if value == 5 {
        "5"@
    } else if value == 6 {
        "6"@
    } else if value == 7 {
        "7"@
    } else if value == 8 {
        "8"@
    } else {
        "9"@
    }
}

/// A number below a hundred as two decimal digits.
pub open spec fn two_digits(value: int) -> Seq<char> {
    digit_text(value / 10) + digit_text(value % 10)
}

/// A UTC offset as RFC 3339 writes it: a sign, the hours, a colon, the
/// minutes. The offset of UTC itself is `+00:00`.
pub open spec fn offset_text(offset_seconds: int) -> Seq<char> {
    let magnitude = if offset_seconds < 0 {
        -offset_seconds
    } else {
        offset_seconds
    };
    (if offset_seconds < 0 {
        "-"@
    } else {
        "+"@
    }) + two_digits(magnitude / 3600) + ":"@ + two_digits((magnitude / 60) % 60)
}

/// The RFC 3339 text of an instant at an offset: the date and time of day
/// that a clock at the offset shows, and the offset.
pub open spec fn rfc3339_text(epoch_seconds: int, offset_seconds: int) -> Seq<char> {
    calendar_text(epoch_seconds + offset_seconds) + offset_text(offset_seconds)
}

fn digit(value: i32) -> (text: &'static str)
    requires
        0 <= value <= 9,
    ensures
        text@ == digit_text(value as int),
{
    match value {
        0 => "0",
        1 => "1",
        2 => "2",
        3 => "3",
        4 => "4",
        5 => "5",
        6 => "6",
        7 => "7",
        8 => "8",
        _ => "9",
    }
}

fn append_two_digits(text: &mut String, value: i32)
    requires
        0 <= value < 100,
    ensures
        final(text)@ == old(text)@ + two_digits(value as int),
{
    text.append(digit(value / 10));
    text.append(digit(value % 10));
}

/// Writes a UTC offset as a sign, the hours, a colon and the minutes.
fn render_offset(offset_seconds: i32) -> (text: String)
    requires
        -86_400 < offset_seconds < 86_400,
    ensures
        text@ == offset_text(offset_seconds as int),
{
    let magnitude: i32 = if offset_seconds < 0 {
        -offset_seconds
    } else {
        offset_seconds
    };
    let mut text = String::from_str(
        if offset_seconds < 0 {
            "-"
        } else {
            "+"
        },
    );
    append_two_digits(&mut text, magnitude / 3600);
    text.append(":");
    append_two_digits(&mut text, (magnitude / 60) % 60);
    text
}

/// A point in time together with the UTC offset it was recorded at.
///
/// The instant is counted in whole seconds since 1970-01-01T00:00:00Z; the
/// offset only decides how the instant is written down.
#[derive(Clone, Copy, Debug)]
pub struct TimeRecord {
    epoch_seconds: i64,
    offset_seconds: i32,
}

/// The wire form of a record: its timestamp as RFC 3339 text.
#[derive(Clone, Debug, PartialEq, Eq)]
pub struct OutputRecord {
    pub time: String,
}

impl View for OutputRecord {
    type V = Seq<char>;

    open spec fn view(&self) -> Seq<char> {
        self.time@
    }
}

impl TimeRecord {
    #[verifier::type_invariant]
    spec fn well_formed(self) -> bool {
        valid_instant(self.epoch_seconds as int) && valid_offset(self.offset_seconds as int)
    }

    /// Seconds since 1970-01-01T00:00:00Z.
    pub closed spec fn epoch(self) -> int {
        self.epoch_seconds as int
    }

    /// Seconds east of Greenwich.
    pub closed spec fn offset(self) -> int {
        self.offset_seconds as int
    }

    /// The record's timestamp as RFC 3339 text at its own offset.
    pub open spec fn rfc3339(self) -> Seq<char> {
        rfc3339_text(self.epoch(), self.offset())
    }

    /// A record of the given instant and offset, if a record can hold them.
    pub fn new(epoch_seconds: i64, offset_seconds: i32) -> (record: Option<TimeRecord>)
        ensures
            record is Some <==> valid_instant(epoch_seconds as int) && valid_offset(
                offset_seconds as int,
            ),
            record matches Some(r) ==> r.epoch() == epoch_seconds && r.offset() == offset_seconds,
    {
        if EARLIEST_EPOCH_SECOND <= epoch_seconds && epoch_seconds <= LATEST_EPOCH_SECOND
            && -86_400 < offset_seconds && offset_seconds < 86_400 && offset_seconds % 60 == 0 {
            Some(TimeRecord { epoch_seconds, offset_seconds })
        } else {
            None
        }
    }

    /// A record of an instant and an offset that are known to be valid.
    pub(crate) fn from_valid(epoch_seconds: i64, offset_seconds: i32) -> (record: TimeRecord)
        requires
            valid_instant(epoch_seconds as int),
            valid_offset(offset_seconds as int),
        ensures
            record.epoch() == epoch_seconds,
            record.offset() == offset_seconds,
    {
        TimeRecord { epoch_seconds, offset_seconds }
    }

    /// Seconds since 1970-01-01T00:00:00Z.
    pub fn epoch_seconds(&self) -> (seconds: i64)
        ensures
            seconds == self.epoch(),
            valid_instant(seconds as int),
    {
        proof {
            use_type_invariant(self);
        }
        self.epoch_seconds
    }

    /// Seconds east of Greenwich.
    pub fn offset_seconds(&self) -> (seconds: i32)
        ensures
            seconds == self.offset(),
            valid_offset(seconds as int),
    {
        proof {
            use_type_invariant(self);
        }
        self.offset_seconds
    }

    /// The wire form: the timestamp rendered at the record's own offset, not
    /// moved to UTC.
    pub fn to_output(&self) -> (out: OutputRecord)
        ensures
            out@ == self.rfc3339(),
    {
        proof {
            use_type_invariant(self);
        }
        let local_seconds: i64 = self.epoch_seconds + self.offset_seconds as i64;
        let mut time = match format_calendar(local_seconds) {
            Ok(written) => written,
            Err(_) => vstd::pervasive::unreached(),
        };
        time.append(render_offset(self.offset_seconds).as_str());
        OutputRecord { time }
    }
}

} // verus!
