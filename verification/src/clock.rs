//! Calendar time, asked of the `chrono` crate: which offset from UTC the
//! machine is set to, and how an instant reads at a given offset.

use chrono::TimeZone;
use std::fmt::Write;
use vstd::prelude::*;

verus! {

/// The layout of a time stamp: year, month and day with dots between, then
/// hour and minute.
pub const TIME_LAYOUT: &'static str = "%Y.%m.%d %H:%M";

/// Whether `chrono` can represent the instant `secs` seconds after the Unix
/// epoch: whether `chrono::TimeZone::timestamp_opt` makes an instant of it.
pub uninterp spec fn has_instant(secs: int) -> bool;

/// An offset from UTC of less than a day, east or west: the offsets that
/// `chrono` makes a zone of.
pub open spec fn is_zone_offset(seconds: int) -> bool {
    -86_400 < seconds < 86_400
}

/// Whether `chrono` has both an instant for `secs` and a zone for `offset`.
pub open spec fn can_render(secs: int, offset: int) -> bool {
    has_instant(secs) && is_zone_offset(offset)
}

/// What `chrono` writes for the instant `secs` seconds after the Unix epoch,
/// seen `offset` seconds east of UTC and laid out as the `strftime`-style
/// `layout` says; `None` where it cannot represent the instant or the offset,
/// or cannot carry out the layout.
pub uninterp spec fn clock_text(secs: int, offset: int, layout: Seq<char>) -> Option<Seq<char>>;

/// The offset from UTC, in seconds east, that the time zone of this machine
/// has at the instant `secs` seconds after the Unix epoch.
///
/// Calls `chrono::TimeZone::timestamp_opt` on `chrono::Local`, keeps the
/// outcome if it is a single instant, and reads `local_minus_utc` of its
/// offset. Whether there is an instant depends on `secs` alone: `chrono`
/// makes one exactly where the seconds are in its range, whatever the zone.
/// Which offset comes back depends on the zone that the machine is set to;
/// all that is claimed of it is that it is less than a day, as every
/// `chrono::FixedOffset` is. Not proved. `chrono` panics where the zone data
/// of the machine gives an offset of a day or more.
#[verifier::external_body]
pub(crate) fn local_offset(secs: i64) -> (offset: Option<i32>)
    ensures
        offset is Some <==> has_instant(secs as int),
        offset matches Some(seconds) ==> is_zone_offset(seconds as int),
{
    let moment = chrono::Local.timestamp_opt(secs, 0).single()?;
    Some(moment.offset().local_minus_utc())
}

/// Renders the instant `secs` seconds after the Unix epoch as seen `offset`
/// seconds east of UTC.
///
/// Makes the zone with `chrono::FixedOffset::east_opt`, the instant with
/// `chrono::TimeZone::timestamp_opt`, and writes `chrono::DateTime::format`
/// of it into a `String`. The three depend on their arguments alone, so the
/// result is `clock_text` of the arguments. There is a zone exactly for an
/// offset of less than a day, and an instant exactly where `has_instant`
/// holds. `TIME_LAYOUT` holds literal characters and the numeric items for
/// year, month, day, hour and minute, which `chrono` writes of every instant
/// without fail; so with that layout there is a text exactly where there are
/// a zone and an instant. Not proved: nothing here says which text it is.
#[verifier::external_body]
pub(crate) fn time_text_at(secs: i64, offset: i32, layout: &str) -> (text: Option<String>)
    ensures
        text.deep_view() == clock_text(secs as int, offset as int, layout@),
        layout@ == TIME_LAYOUT@ ==> (text is Some <==> can_render(secs as int, offset as int)),
{
    let zone = chrono::FixedOffset::east_opt(offset)?;
    let moment = zone.timestamp_opt(secs, 0).single()?;
    let mut text = String::new();
    write!(text, "{}", moment.format(layout)).ok()?;
    Some(text)
}

} // verus!
