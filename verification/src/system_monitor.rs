//! What the system monitor shows: the time the system is up, and meters of
//! how much of a resource is in use.

use vstd::prelude::*;
use vstd::string::*;
use crate::text::decimal;
use crate::text::decimal_of;
use crate::text::two_digits;
use crate::text::two_digits_of;

verus! {

/// The seconds of a minute.
pub const MINUTE: u64 = 60;

/// The seconds of an hour.
pub const HOUR: u64 = 3600;

/// The seconds of a day.
pub const DAY: u64 = 86400;

/// The seconds of a week.
pub const WEEK: u64 = 604800;

/// The seconds of a month, which has thirty-one days here.
pub const MONTH: u64 = 2678400;

/// A count of units, as in `3 days, `: the unit is in the plural where the
/// count is more than one, and a comma follows.
pub open spec fn counted(n: nat, unit: Seq<char>) -> Seq<char> {
    decimal(n) + " "@ + unit + (if n > 1 {
        "s"@
    } else {
        Seq::<char>::empty()
    }) + ", "@
}

/// A count of units, or nothing when the count is zero.
pub open spec fn counted_if_any(n: nat, unit: Seq<char>) -> Seq<char> {
    if n > 0 {
        counted(n, unit)
    } else {
        Seq::empty()
    }
}

/// A time of day as hours, minutes and seconds, two digits each.
pub open spec fn clock(secs: nat) -> Seq<char> {
    two_digits(secs / 3600) + ":"@ + two_digits(secs % 3600 / 60) + ":"@ + two_digits(secs % 60)
}

/// A span of time in months, weeks and days, as far as there are any, and
/// then hours, minutes and seconds.
pub open spec fn time_text(secs: nat) -> Seq<char> {
    counted_if_any(secs / 2678400, "month"@) + counted_if_any(secs % 2678400 / 604800, "week"@)
        + counted_if_any(secs % 2678400 % 604800 / 86400, "day"@) + clock(
        secs % 2678400 % 604800 % 86400,
    )
}

fn push_counted(res: &mut String, n: u64, unit: &str)
    ensures
        final(res)@ == old(res)@ + counted_if_any(n as nat, unit@),
{
    if n > 0 {
        res.append(decimal_of(n).as_str());
        res.append(" ");
        res.append(unit);
        if n > 1 {
            res.append("s");
        }
        res.append(", ");
        proof {
            assert(res@ =~= old(res)@ + counted(n as nat, unit@));
        }
    } else {
        proof {
            assert(res@ =~= old(res)@ + Seq::<char>::empty());
        }
    }
}

/// A span of time of `secs` seconds in words and digits.
pub fn format_time(secs: u64) -> (res: String)
    ensures
        res@ == time_text(secs as nat),
{
    let mut secs = secs;
    let ghost all = secs;
    let mut res = String::new();
    push_counted(&mut res, secs / MONTH, "month");
    secs = secs % MONTH;
    push_counted(&mut res, secs / WEEK, "week");
    secs = secs % WEEK;
    push_counted(&mut res, secs / DAY, "day");
    secs = secs % DAY;
    let hours = secs / HOUR;
    secs = secs % HOUR;
    let minutes = secs / MINUTE;
    secs = secs % MINUTE;
    let ghost head = res@;
    res.append(two_digits_of(hours).as_str());
    res.append(":");
    res.append(two_digits_of(minutes).as_str());
    res.append(":");
    res.append(two_digits_of(secs).as_str());
    proof {
        let rest = (all % 2678400 % 604800 % 86400) as nat;
        assert(rest % 3600 % 60 == rest % 60) by (nonlinear_arith);
        assert(res@ =~= head + clock(rest));
        assert(res@ =~= time_text(all as nat));
    }
    res
}

/// The columns that a meter needs beside its bar: a space and a percentage
/// of up to three digits with its sign.
pub const METER_LABEL_WIDTH: u16 = 5;

/// How a meter is drawn in a row of cells: the first `filled` cells of the
/// bar are lit, the bar is `width` cells long, and `percentage` is written
/// behind it.
#[derive(Clone, Copy, Debug, PartialEq, Eq, Structural)]
pub struct Meter {
    pub filled: u16,
    pub width: u16,
    pub percentage: u16,
}

/// The percentage that a meter shows: a value above a hundred is no
/// percentage and is shown as nought.
pub open spec fn shown_percentage(percentage: u16) -> u16 {
    if percentage > 100 {
        0
    } else {
        percentage
    }
}

/// The meter for a percentage in an area of the given width, if the area
/// has room for one.
pub open spec fn meter_for(area_width: u16, percentage: u16) -> Option<Meter> {
    if area_width <= METER_LABEL_WIDTH {
        None
    } else {
        let width = (area_width - METER_LABEL_WIDTH) as u16;
        let shown = shown_percentage(percentage);
        Some(Meter { filled: (width * shown / 100) as u16, width, percentage: shown })
    }
}

/// Lays out the meter for `percentage` in an area `area_width` cells wide.
pub fn meter(area_width: u16, percentage: u16) -> (r: Option<Meter>)
    ensures
        r == meter_for(area_width, percentage),
        r matches Some(m) ==> m.filled <= m.width && m.percentage <= 100,
{
    if area_width <= METER_LABEL_WIDTH {
        return None;
    }
    let width = area_width - METER_LABEL_WIDTH;
    let shown: u16 = if percentage > 100 {
        0
    } else {
        percentage
    };
    assert(width * shown <= width * 100) by (nonlinear_arith)
        requires
            shown <= 100,
            width >= 0,
    ;
    let filled = ((width as u32) * (shown as u32) / 100) as u16;
    Some(Meter { filled, width, percentage: shown })
}

/// The percentage behind a meter: the number, moved to the right in three
/// columns, and the percent sign.
pub open spec fn percentage_label(percentage: nat) -> Seq<char> {
    (if percentage < 10 {
        "  "@
    } else if percentage < 100 {
        " "@
    } else {
        Seq::<char>::empty()
    }) + decimal(percentage) + "%"@
}

/// The text that is written behind a meter.
pub fn meter_label(percentage: u16) -> (label: String)
    ensures
        label@ == percentage_label(percentage as nat),
{
    let mut label = String::new();
    if percentage < 10 {
        label.append("  ");
    } else if percentage < 100 {
        label.append(" ");
    }
    label.append(decimal_of(percentage as u64).as_str());
    label.append("%");
    proof {
        assert(label@ =~= percentage_label(percentage as nat));
    }
    label
}

/// How much of `total` is `used`, in percent, rounded down.  Of nothing,
/// nothing is in use.
pub open spec fn percent_of(used: u64, total: u64) -> int {
    if total == 0 {
        0
    } else {
        100 * used / (total as int)
    }
}

/// The percentage of `total` that `used` is, as far as sixteen bits hold
/// it.
pub fn usage(used: u64, total: u64) -> (percentage: u16)
    ensures
        percentage == percent_of(used, total) % 65536,
{
    if total == 0 {
        return 0;
    }
    let ratio: u128 = 100 * (used as u128) / (total as u128);
    (ratio % 65536) as u16
}

} // verus!
