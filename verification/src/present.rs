//! Presenting one poll as a line of text: a minute-precision local timestamp,
//! a separator, and a glyph for the status and charge level.
use vstd::prelude::*;

use crate::classify::BatteryStatus;
use crate::num::{dec_digits, is_digit, level_text};

verus! {

/// The glyph for a status and level: a full battery shows a fixed checkmark
/// token and no level, a charging or discharging one shows the level with its
/// sign, and an unknown one shows a question token and no level.
pub open spec fn glyph(status: BatteryStatus, level: u8) -> Seq<char> {
    match status {
        BatteryStatus::Full => "🔋✓"@,
        BatteryStatus::Charging => "🔋"@ + dec_digits(level as nat) + "+"@,
        BatteryStatus::Discharging => "🔋"@ + dec_digits(level as nat) + "-"@,
        BatteryStatus::Unknown => "🔋?!"@,
    }
}

/// A whole status line: the timestamp, a separator, and the glyph.
pub open spec fn line(ts: Seq<char>, status: BatteryStatus, level: u8) -> Seq<char> {
    ts + " - "@ + glyph(status, level)
}

/// Renders the line for one poll from an already formatted timestamp.
pub fn render(now: &str, status: BatteryStatus, level: u8) -> (r: String)
    ensures
        r@ == line(now@, status, level),
{
    let mut out = now.to_owned();
    out.append(" - ");
    match status {
        BatteryStatus::Full => {
            out.append("🔋✓");
        },
        BatteryStatus::Charging => {
            out.append("🔋");
            let lv = level_text(level);
            out.append(lv.as_str());
            out.append("+");
        },
        BatteryStatus::Discharging => {
            out.append("🔋");
            let lv = level_text(level);
            out.append(lv.as_str());
            out.append("-");
        },
        BatteryStatus::Unknown => {
            out.append("🔋?!");
        },
    }
    proof {
        assert(out@ =~= line(now@, status, level));
    }
    out
}

/// The shape every timestamp of the line's format has, whatever the clock
/// reads: at least four characters of year, then "-MM-DD HH:MM" — month, day,
/// hour and minute as two digits each, with their separators.
pub open spec fn is_minute_stamp(ts: Seq<char>) -> bool {
    let n = ts.len() as int;
    &&& ts.len() >= 16
    &&& ts[n - 12] == '-' && is_digit(ts[n - 11]) && is_digit(ts[n - 10])
    &&& ts[n - 9] == '-' && is_digit(ts[n - 8]) && is_digit(ts[n - 7])
    &&& ts[n - 6] == ' ' && is_digit(ts[n - 5]) && is_digit(ts[n - 4])
    &&& ts[n - 3] == ':' && is_digit(ts[n - 2]) && is_digit(ts[n - 1])
}

/// Relies on chrono: `Local::now` gives the current time in the host's local
/// zone, and formatting it with "%Y-%m-%d %H:%M" writes its date and time at
/// minute precision. Which time comes back depends on the clock and the
/// host's zone, but every outcome has the format's shape: the year is written
/// with at least four characters, and month, day, hour and minute with two
/// digits each behind their separators.
#[verifier::external_body]
fn now_minute_text() -> (r: String)
    ensures
        is_minute_stamp(r@),
{
    chrono::Local::now().format("%Y-%m-%d %H:%M").to_string()
}

/// Renders the line for one poll, timestamped with the current local time at
/// minute precision: some minute-shaped timestamp, the separator, and the
/// glyph of the status and level.
pub fn status_line(status: BatteryStatus, level: u8) -> (r: String)
    ensures
        exists|ts: Seq<char>| is_minute_stamp(ts) && r@ == #[trigger] line(ts, status, level),
{
    let now = now_minute_text();
    let r = render(now.as_str(), status, level);
    proof {
        assert(r@ == line(now@, status, level));
    }
    r
}

/// A full battery's line does not depend on the level argument: the level is
/// not shown.
pub proof fn lemma_full_ignores_level(ts: Seq<char>, a: u8, b: u8)
    ensures
        line(ts, BatteryStatus::Full, a) == line(ts, BatteryStatus::Full, b),
{
}

/// An unknown status's line does not depend on the level argument: the level
/// is not shown.
pub proof fn lemma_unknown_ignores_level(ts: Seq<char>, a: u8, b: u8)
    ensures
        line(ts, BatteryStatus::Unknown, a) == line(ts, BatteryStatus::Unknown, b),
{
}

/// Every line ends with the glyph of its status and level, right after the
/// timestamp and the separator.
pub proof fn lemma_line_ends_with_glyph(ts: Seq<char>, status: BatteryStatus, level: u8)
    ensures
        line(ts, status, level).len() == ts.len() + " - "@.len() + glyph(status, level).len(),
        line(ts, status, level).skip(ts.len() + " - "@.len() as int) == glyph(status, level),
{
    assert(line(ts, status, level).skip(ts.len() + " - "@.len() as int) =~= glyph(status, level));
}

} // verus!
