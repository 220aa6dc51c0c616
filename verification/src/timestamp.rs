//! The UTC instant a signing operation is bound to, and its two compact
//! renderings: `YYYYMMDD` for the credential scope and `YYYYMMDDTHHMMSSZ`
//! for the canonical query string and the string-to-sign.

use vstd::prelude::*;
use chrono::{Datelike, Timelike};

verus! {

/// A UTC instant, held as plain calendar fields. One value is captured per
/// signing call and reused for the scope, the query string and the
/// string-to-sign, so that all three agree.
#[derive(Debug, Clone, Copy, PartialEq, Eq, Structural)]
pub struct Timestamp {
    pub year: u16,
    pub month: u8,
    pub day: u8,
    pub hour: u8,
    pub minute: u8,
    pub second: u8,
}

impl Timestamp {
    /// The fields form a renderable calendar instant: a four-digit year and
    /// in-range month, day and time-of-day components.
    pub open spec fn wf(self) -> bool {
        &&& self.year <= 9999
        &&& 1 <= self.month <= 12
        &&& 1 <= self.day <= 31
        &&& self.hour <= 23
        &&& self.minute <= 59
        &&& self.second <= 59
    }

    /// Builds a timestamp from plain fields, rejecting out-of-range ones.
    pub fn new(year: u16, month: u8, day: u8, hour: u8, minute: u8, second: u8) -> (r: Option<
        Timestamp,
    >)
        ensures
            r is Some <==> (Timestamp { year, month, day, hour, minute, second }).wf(),
            r matches Some(ts) ==> ts == (Timestamp { year, month, day, hour, minute, second }),
    {
        if year <= 9999 && 1 <= month && month <= 12 && 1 <= day && day <= 31 && hour <= 23
            && minute <= 59 && second <= 59 {
            Some(Timestamp { year, month, day, hour, minute, second })
        } else {
            None
        }
    }

    /// Captures the current UTC time. `None` when the clock reports an
    /// instant before the epoch or a year that no four-digit rendering can
    /// carry.
    pub fn now() -> (r: Option<Timestamp>)
        ensures
            r matches Some(ts) ==> ts.wf(),
    {
        let (year, month, day, hour, minute, second) = utc_now_parts();
        if 0 <= year && year <= 9999 {
            Timestamp::new(
                year as u16,
                month as u8,
                day as u8,
                hour as u8,
                minute as u8,
                second as u8,
            )
        } else {
            None
        }
    }
}

/// Relies on `std::time::SystemTime::now` and
/// `chrono::DateTime::from_timestamp` with the `Datelike` and `Timelike`
/// accessors: month runs from 1 to 12, day from 1 to 31, hour from 0 to 23,
/// minute and second from 0 to 59. Nothing is promised of the year: it comes
/// from the machine's clock, and a reading that chrono cannot represent (a
/// clock before the epoch, or absurdly far ahead) comes back with year -1,
/// which no caller accepts. The chrono calls are total; nothing here panics.
#[verifier::external_body]
fn utc_now_parts() -> (r: (i32, u32, u32, u32, u32, u32))
    ensures
        1 <= r.1 <= 12,
        1 <= r.2 <= 31,
        r.3 <= 23,
        r.4 <= 59,
        r.5 <= 59,
{
    let since_epoch = match std::time::SystemTime::now().duration_since(std::time::UNIX_EPOCH) {
        Ok(d) => d,
        Err(_) => return (-1, 1, 1, 0, 0, 0),
    };
    let seconds = match i64::try_from(since_epoch.as_secs()) {
        Ok(s) => s,
        Err(_) => return (-1, 1, 1, 0, 0, 0),
    };
    let now = match chrono::DateTime::from_timestamp(seconds, since_epoch.subsec_nanos()) {
        Some(t) => t,
        None => return (-1, 1, 1, 0, 0, 0),
    };
    (now.year(), now.month(), now.day(), now.hour(), now.minute(), now.second())
}

/// The ASCII digit of a value below ten.
pub open spec fn dec_digit(n: nat) -> u8
    recommends
        n < 10,
{
    (0x30 + n) as u8
}

/// A value below one hundred as two ASCII digits, zero-padded.
pub open spec fn two_digits(n: nat) -> Seq<u8>
    recommends
        n < 100,
{
    seq![dec_digit(n / 10), dec_digit(n % 10)]
}

/// A value below ten thousand as four ASCII digits, zero-padded.
pub open spec fn four_digits(n: nat) -> Seq<u8>
    recommends
        n < 10000,
{
    seq![
        dec_digit(n / 1000),
        dec_digit((n / 100) % 10),
        dec_digit((n / 10) % 10),
        dec_digit(n % 10),
    ]
}

/// The `YYYYMMDD` rendering that the credential scope opens with.
pub open spec fn date_compact(ts: Timestamp) -> Seq<u8>
    recommends
        ts.wf(),
{
    four_digits(ts.year as nat) + two_digits(ts.month as nat) + two_digits(ts.day as nat)
}

/// The `YYYYMMDDTHHMMSSZ` rendering used for `X-Goog-Date` and the
/// string-to-sign.
pub open spec fn datetime_compact(ts: Timestamp) -> Seq<u8>
    recommends
        ts.wf(),
{
    date_compact(ts) + seq![0x54u8] + two_digits(ts.hour as nat) + two_digits(ts.minute as nat)
        + two_digits(ts.second as nat) + seq![0x5au8]
}

fn push_two_digits(out: &mut Vec<u8>, n: u8)
    requires
        n < 100,
    ensures
        final(out)@ == old(out)@ + two_digits(n as nat),
{
    out.push(0x30 + n / 10);
    out.push(0x30 + n % 10);
    proof {
        assert(out@ =~= old(out)@ + two_digits(n as nat));
    }
}

fn push_four_digits(out: &mut Vec<u8>, n: u16)
    requires
        n < 10000,
    ensures
        final(out)@ == old(out)@ + four_digits(n as nat),
{
    out.push(0x30 + (n / 1000) as u8);
    out.push(0x30 + ((n / 100) % 10) as u8);
    out.push(0x30 + ((n / 10) % 10) as u8);
    out.push(0x30 + (n % 10) as u8);
    proof {
        assert(out@ =~= old(out)@ + four_digits(n as nat));
    }
}

/// Renders the date of a timestamp as `YYYYMMDD`.
pub fn format_date(ts: &Timestamp) -> (r: Vec<u8>)
    requires
        ts.wf(),
    ensures
        r@ == date_compact(*ts),
{
    let mut out: Vec<u8> = Vec::new();
    push_four_digits(&mut out, ts.year);
    push_two_digits(&mut out, ts.month);
    push_two_digits(&mut out, ts.day);
    proof {
        assert(out@ =~= date_compact(*ts));
    }
    out
}

/// Renders a timestamp as `YYYYMMDDTHHMMSSZ`.
pub fn format_datetime(ts: &Timestamp) -> (r: Vec<u8>)
    requires
        ts.wf(),
    ensures
        r@ == datetime_compact(*ts),
{
    let mut out: Vec<u8> = Vec::new();
    push_four_digits(&mut out, ts.year);
    push_two_digits(&mut out, ts.month);
    push_two_digits(&mut out, ts.day);
    out.push(0x54);
    push_two_digits(&mut out, ts.hour);
    push_two_digits(&mut out, ts.minute);
    push_two_digits(&mut out, ts.second);
    out.push(0x5a);
    proof {
        assert(out@ =~= datetime_compact(*ts));
    }
    out
}

/// Both compact renderings are pure ASCII.
pub proof fn lemma_datetime_compact_ascii(ts: Timestamp)
    requires
        ts.wf(),
    ensures
        forall|i: int| 0 <= i < date_compact(ts).len() ==> #[trigger] date_compact(ts)[i] < 0x80,
        forall|i: int| 0 <= i < datetime_compact(ts).len() ==> #[trigger] datetime_compact(ts)[i]
            < 0x80,
{
}

} // verus!
