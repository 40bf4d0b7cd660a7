//! The fifteen-character local timestamp of a modification time.

use vstd::prelude::*;
use vstd::string::*;
use crate::error::ErrorKind;

verus! {

/// The length of every timestamp.
pub const STAMP_LEN: usize = 15;

/// Whether `c` is one of the ten decimal digits.
pub open spec fn is_digit(c: char) -> bool {
    '0' <= c && c <= '9'
}

/// Whether `text` is a timestamp: eight digits for the date, an underscore,
/// six digits for the time of day.
pub open spec fn is_stamp(text: Seq<char>) -> bool {
    &&& text.len() == 15
    &&& text[8] == '_'
    &&& forall|i: int| 0 <= i < 15 && i != 8 ==> is_digit(#[trigger] text[i])
}

/// Tests whether `text` is a timestamp.
pub fn is_timestamp(text: &str) -> (yes: bool)
    ensures
        yes == is_stamp(text@),
{
    if text.unicode_len() != STAMP_LEN {
        return false;
    }
    let mut i: usize = 0;
    while i < STAMP_LEN
        invariant
            text@.len() == 15,
            i <= 15,
            forall|j: int| 0 <= j < i && j != 8 ==> is_digit(#[trigger] text@[j]),
            i > 8 ==> text@[8] == '_',
        decreases 15 - i,
    {
        let c = text.get_char(i);
        if i == 8 {
            if c != '_' {
                return false;
            }
        } else if !('0' <= c && c <= '9') {
            return false;
        }
        i = i + 1;
    }
    true
}

/// The nanoseconds in a second.
pub const NANOS_PER_SEC: u32 = 1_000_000_000;

/// An instant in nanoseconds since the Unix epoch, from its distance to the
/// epoch and the side it lies on.
pub open spec fn signed_nanos(before_epoch: bool, secs: u64, nanos: u32) -> int {
    if before_epoch {
        -(secs * 1_000_000_000 + nanos)
    } else {
        secs * 1_000_000_000 + nanos
    }
}

/// The whole seconds since the epoch of an instant, rounded down.
pub open spec fn floor_secs(before_epoch: bool, secs: u64, nanos: u32) -> int {
    if !before_epoch {
        secs as int
    } else if nanos == 0 {
        -(secs as int)
    } else {
        -(secs as int) - 1
    }
}

/// The nanoseconds of an instant beyond its whole seconds.
pub open spec fn sub_nanos(before_epoch: bool, nanos: u32) -> int {
    if !before_epoch || nanos == 0 {
        nanos as int
    } else {
        1_000_000_000 - nanos
    }
}

/// An instant as seconds since the epoch, rounded down, and the nanoseconds
/// beyond them; none where the nanoseconds given reach a second or the
/// seconds do not fit.
pub open spec fn epoch_time(before_epoch: bool, secs: u64, nanos: u32) -> Option<(i64, u32)> {
    let whole = floor_secs(before_epoch, secs, nanos);
    if nanos >= 1_000_000_000 || whole < i64::MIN || whole > i64::MAX {
        None
    } else {
        Some((whole as i64, sub_nanos(before_epoch, nanos) as u32))
    }
}

/// Turns the distance of an instant to the Unix epoch, with the side it lies
/// on, into seconds since the epoch and nanoseconds beyond them.
pub fn since_epoch(before_epoch: bool, secs: u64, nanos: u32) -> (time: Option<(i64, u32)>)
    ensures
        time == epoch_time(before_epoch, secs, nanos),
{
    if nanos >= NANOS_PER_SEC {
        return None;
    }
    if !before_epoch {
        if secs > 0x7fff_ffff_ffff_ffff {
            None
        } else {
            Some((secs as i64, nanos))
        }
    } else if nanos == 0 {
        if secs > 0x8000_0000_0000_0000 {
            None
        } else if secs == 0x8000_0000_0000_0000 {
            Some((i64::MIN, 0))
        } else {
            Some((-(secs as i64), 0))
        }
    } else if secs > 0x7fff_ffff_ffff_ffff {
        None
    } else {
        Some((-(secs as i64) - 1, NANOS_PER_SEC - nanos))
    }
}

/// What `since_epoch` gives is the instant it was given: the seconds and the
/// nanoseconds add up to it, and the nanoseconds stay below a second. It
/// gives nothing only for nanoseconds that reach a second and for an instant
/// whose seconds lie outside the 64-bit range.
pub proof fn law_epoch_time_exact(before_epoch: bool, secs: u64, nanos: u32)
    ensures
        match epoch_time(before_epoch, secs, nanos) {
            Some((whole, beyond)) => beyond < 1_000_000_000 && whole * 1_000_000_000 + beyond
                == signed_nanos(before_epoch, secs, nanos),
            None => nanos >= 1_000_000_000 || signed_nanos(before_epoch, secs, nanos)
                < i64::MIN * 1_000_000_000 || signed_nanos(before_epoch, secs, nanos)
                >= (i64::MAX + 1) * 1_000_000_000,
        },
{
}

/// Renders an instant, given as seconds and nanoseconds since the Unix
/// epoch, in the machine's local time zone. Calls chrono's
/// `DateTime::from_timestamp`, moves the instant to `Local` with
/// `DateTime::with_timezone` and renders it with `DateTime::format` under the
/// pattern `%Y%m%d_%H%M%S`. `None` is what `from_timestamp` gives for an
/// instant that chrono cannot hold. Nothing is claimed of the text: it
/// depends on the time zone, and chrono renders a year outside 0 to 9999
/// with a sign and more digits.
#[verifier::external_body]
fn local_stamp(secs: i64, nanos: u32) -> (text: Option<String>) {
    match chrono::DateTime::from_timestamp(secs, nanos) {
        Some(utc) => Some(utc.with_timezone(&chrono::Local).format("%Y%m%d_%H%M%S").to_string()),
        None => None,
    }
}

/// What a rendered time is worth: the text itself where it is a timestamp,
/// a clock failure where there is none or it has another shape.
pub open spec fn stamp_verdict(raw: Option<Seq<char>>) -> Result<Seq<char>, ErrorKind> {
    match raw {
        Some(text) => if is_stamp(text) {
            Ok(text)
        } else {
            Err(ErrorKind::Clock)
        },
        None => Err(ErrorKind::Clock),
    }
}

/// Accepts a rendered time only where it is a timestamp.
pub fn checked_stamp(raw: Option<String>) -> (stamp: Result<String, ErrorKind>)
    ensures
        match stamp {
            Ok(text) => raw is Some && stamp_verdict(Some(raw->0@)) == Ok::<_, ErrorKind>(text@),
            Err(e) => e == ErrorKind::Clock && (raw is None || !is_stamp(raw->0@)),
        },
{
    match raw {
        Some(text) => {
            if is_timestamp(text.as_str()) {
                Ok(text)
            } else {
                Err(ErrorKind::Clock)
            }
        },
        None => Err(ErrorKind::Clock),
    }
}

/// The local timestamp of a modification time, given as seconds and
/// nanoseconds since the Unix epoch; `None` stands for a time that cannot be
/// given so. Which text comes out depends on the machine's time zone;
/// whatever it is, it is a timestamp, and a time without one is a clock
/// failure.
pub fn timestamp(modified: Option<(i64, u32)>) -> (stamp: Result<String, ErrorKind>)
    ensures
        match stamp {
            Ok(text) => modified is Some && is_stamp(text@),
            Err(e) => e == ErrorKind::Clock,
        },
{
    match modified {
        Some((secs, nanos)) => checked_stamp(local_stamp(secs, nanos)),
        None => Err(ErrorKind::Clock),
    }
}

} // verus!
