//! Normalising the textual UTC instants of telemetry to epoch milliseconds.

use vstd::prelude::*;
use vstd::utf8::encode_utf8;

verus! {

/// The layout of every instant in telemetry: `YYYY-MM-DD HH:MM:SS.fff`, always UTC.
pub const UTC_TIME_FORMAT: &'static str = "%Y-%m-%d %H:%M:%S%.3f";

/// Why an instant could not be normalised.
#[derive(Clone, Copy, Debug, PartialEq, Eq, Structural)]
pub enum TimestampError {
    /// The text is not an instant in the expected layout.
    Format,
    /// The instant lies before 1970-01-01 00:00:00 UTC.
    Range,
}

/// What `chrono` reads out of `text` under `format`: the signed count of
/// non-leap milliseconds between the epoch and the instant, taken as UTC, or
/// `None` where `chrono` rejects the text, as it does for a month 13 or an
/// hour 24.
pub uninterp spec fn parsed_utc_millis(text: Seq<char>, format: Seq<char>) -> Option<i64>;

/// The epoch value that a parse outcome stands for.
pub open spec fn epoch_of(parsed: Option<i64>) -> Result<u64, TimestampError> {
    match parsed {
        None => Err(TimestampError::Format),
        Some(millis) => if millis < 0 {
            Err(TimestampError::Range)
        } else {
            Ok(millis as u64)
        },
    }
}

/// The byte `-`, between year, month and day.
pub const DASH: u8 = 45;

/// The byte of a blank, between the date and the time of day.
pub const SPACE: u8 = 32;

/// The byte `:`, between hour, minute and second.
pub const COLON: u8 = 58;

/// The byte `.`, before the milliseconds.
pub const DOT: u8 = 46;

/// The byte `0`.
pub const DIGIT_ZERO: u8 = 48;

/// The byte `9`.
pub const DIGIT_NINE: u8 = 57;

/// Whether `byte` is a decimal digit.
pub open spec fn is_digit(byte: u8) -> bool {
    DIGIT_ZERO <= byte <= DIGIT_NINE
}

/// Whether `byte` may stand at place `at` of an instant: a digit everywhere
/// but at the six separators of `YYYY-MM-DD HH:MM:SS.fff`.
pub open spec fn layout_accepts(at: int, byte: u8) -> bool {
    if at == 4 || at == 7 {
        byte == DASH
    } else if at == 10 {
        byte == SPACE
    } else if at == 13 || at == 16 {
        byte == COLON
    } else if at == 19 {
        byte == DOT
    } else {
        is_digit(byte)
    }
}

/// Whether `bytes` are laid out as `YYYY-MM-DD HH:MM:SS.fff`: 23 bytes, digits
/// and separators each in its place.
pub open spec fn is_utc_layout(bytes: Seq<u8>) -> bool {
    &&& bytes.len() == 23
    &&& forall|at: int| 0 <= at < 23 ==> layout_accepts(at, #[trigger] bytes[at])
}

/// The epoch milliseconds of a telemetry instant. A text in any other layout
/// is a format error, whatever else could be read out of it.
pub open spec fn epoch_millis(text: Seq<char>) -> Result<u64, TimestampError> {
    if is_utc_layout(encode_utf8(text)) {
        epoch_of(parsed_utc_millis(text, UTC_TIME_FORMAT@))
    } else {
        Err(TimestampError::Format)
    }
}

/// Whether `bytes` are laid out as `YYYY-MM-DD HH:MM:SS.fff`.
pub fn has_utc_layout(bytes: &[u8]) -> (r: bool)
    ensures
        r == is_utc_layout(bytes@),
{
    if bytes.len() != 23 {
        return false;
    }
    let mut at: usize = 0;
    while at < 23
        invariant
            bytes@.len() == 23,
            at <= 23,
            forall|k: int| 0 <= k < at ==> layout_accepts(k, #[trigger] bytes@[k]),
        decreases 23 - at,
    {
        let byte = bytes[at];
        let fits = if at == 4 || at == 7 {
            byte == DASH
        } else if at == 10 {
            byte == SPACE
        } else if at == 13 || at == 16 {
            byte == COLON
        } else if at == 19 {
            byte == DOT
        } else {
            DIGIT_ZERO <= byte && byte <= DIGIT_NINE
        };
        if !fits {
            assert(!layout_accepts(at as int, bytes@[at as int]));
            return false;
        }
        at += 1;
    }
    true
}

/// Calls `chrono::NaiveDateTime::parse_from_str` and reads the outcome as UTC
/// through `NaiveDateTime::and_utc` and `DateTime::timestamp_millis`.
///
/// Trusted: the result is a function of the two texts alone. Nothing is claimed
/// about which texts `chrono` accepts.
#[verifier::external_body]
fn parse_utc_millis(text: &str, format: &str) -> (parsed: Option<i64>)
    ensures
        parsed == parsed_utc_millis(text@, format@),
{
    match chrono::NaiveDateTime::parse_from_str(text, format) {
        Ok(instant) => Some(instant.and_utc().timestamp_millis()),
        Err(_) => None,
    }
}

/// Turns a parse outcome into epoch milliseconds: a rejected text is a format
/// error, an instant before the epoch a range error.
pub fn epoch_from_parsed(parsed: Option<i64>) -> (r: Result<u64, TimestampError>)
    ensures
        r == epoch_of(parsed),
{
    match parsed {
        None => Err(TimestampError::Format),
        Some(millis) => {
            if millis < 0 {
                Err(TimestampError::Range)
            } else {
                Ok(millis as u64)
            }
        },
    }
}

/// Milliseconds since the epoch of a UTC instant written as
/// `YYYY-MM-DD HH:MM:SS.fff`.
pub fn utc_to_epoch(utc: &str) -> (r: Result<u64, TimestampError>)
    ensures
        r == epoch_millis(utc@),
        !is_utc_layout(encode_utf8(utc@)) ==> r == Err::<u64, TimestampError>(TimestampError::Format),
{
    if has_utc_layout(utc.as_bytes()) {
        epoch_from_parsed(parse_utc_millis(utc, UTC_TIME_FORMAT))
    } else {
        Err(TimestampError::Format)
    }
}

} // verus!
