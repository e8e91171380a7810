//! Timestamping of call outcomes, from the wall clock: the clock is read
//! as plain calendar and clock fields, and the stamp's text is rendered by
//! a verified function with an exact contract.

use vstd::prelude::*;

use crate::decimal::{pad2, pad4, u32_to_pad2, u64_to_pad4};
use crate::reconcile::AttemptResult;

verus! {

/// One UTC wall-clock reading, split into plain calendar and clock fields.
pub struct UtcTime {
    pub year: i32,
    pub month: u32,
    pub day: u32,
    pub hour: u32,
    pub minute: u32,
    pub second: u32,
}

/// The field ranges that chrono documents for its calendar and clock
/// accessors; every reading the clock wrapper hands out lies in them.
pub open spec fn valid_utc_fields(t: UtcTime) -> bool {
    &&& 1 <= t.month <= 12
    &&& 1 <= t.day <= 31
    &&& t.hour <= 23
    &&& t.minute <= 59
    &&& t.second <= 59
}

/// The year as written in a timestamp: zero-padded to four digits, with a
/// leading minus sign for a year before year zero.
pub open spec fn year_text(y: int) -> Seq<char> {
    if y < 0 {
        "-"@ + pad4(-y)
    } else {
        pad4(y)
    }
}

/// The exact text of a timestamp: `YYYY-MM-DD HH:MM:SS UTC`, to second
/// precision.
pub open spec fn timestamp_text(t: UtcTime) -> Seq<char> {
    year_text(t.year as int) + "-"@ + pad2(t.month as int) + "-"@ + pad2(t.day as int) + " "@
        + pad2(t.hour as int) + ":"@ + pad2(t.minute as int) + ":"@ + pad2(t.second as int)
        + " UTC"@
}

/// Relies on chrono: one UTC wall-clock reading, taken from
/// `std::time::SystemTime::now` through chrono's `From<SystemTime>`
/// conversion — which handles a pre-epoch clock — with the fields read by
/// chrono's `Datelike` and `Timelike` accessors. The reading depends on
/// the clock, so only the ranges those accessors document are promised. A
/// clock reading outside chrono's representable span makes the conversion
/// itself abort.
#[verifier::external_body]
fn now_utc() -> (t: UtcTime)
    ensures
        valid_utc_fields(t),
{
    let dt: chrono::DateTime<chrono::Utc> = std::time::SystemTime::now().into();
    UtcTime {
        year: chrono::Datelike::year(&dt),
        month: chrono::Datelike::month(&dt),
        day: chrono::Datelike::day(&dt),
        hour: chrono::Timelike::hour(&dt),
        minute: chrono::Timelike::minute(&dt),
        second: chrono::Timelike::second(&dt),
    }
}

/// Renders a year as `year_text` states.
fn year_str(y: i32) -> (r: String)
    ensures
        r@ == year_text(y as int),
{
    if y >= 0 {
        u64_to_pad4(y as u64)
    } else {
        let m: u64 = (-(y as i64)) as u64;
        proof {
            assert(m as int == -(y as int));
        }
        let digits = u64_to_pad4(m);
        let r = String::from_str("-").concat(digits.as_str());
        proof {
            assert(r@ =~= year_text(y as int));
        }
        r
    }
}

/// Renders a clock reading, exactly as `timestamp_text` states —
/// deterministic in the reading.
pub fn render_timestamp(t: &UtcTime) -> (r: String)
    ensures
        r@ == timestamp_text(*t),
{
    let mut line = year_str(t.year);
    line.append("-");
    let month = u32_to_pad2(t.month);
    line.append(month.as_str());
    line.append("-");
    let day = u32_to_pad2(t.day);
    line.append(day.as_str());
    line.append(" ");
    let hour = u32_to_pad2(t.hour);
    line.append(hour.as_str());
    line.append(":");
    let minute = u32_to_pad2(t.minute);
    line.append(minute.as_str());
    line.append(":");
    let second = u32_to_pad2(t.second);
    line.append(second.as_str());
    line.append(" UTC");
    proof {
        assert(line@ =~= timestamp_text(*t));
    }
    line
}

/// Records the outcome of one attempted daemon call, stamped with the
/// current time. The success flag and the diagnostic text are carried over
/// unchanged, and whatever the clock read, the stamp is the rendering of
/// an in-range UTC reading: `YYYY-MM-DD HH:MM:SS UTC`, second precision.
pub fn attempt_result(success: bool, error: String) -> (r: AttemptResult)
    ensures
        r.success == success,
        r.error == error,
        exists|t: UtcTime|
            {
                &&& #[trigger] timestamp_text(t) == r.timestamp@
                &&& valid_utc_fields(t)
            },
{
    let now = now_utc();
    let stamp = render_timestamp(&now);
    proof {
        assert(timestamp_text(now) == stamp@);
    }
    AttemptResult { timestamp: stamp, success: success, error: error }
}

} // verus!
