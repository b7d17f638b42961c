//! What a display shows of the series: the line of statistics and the
//! upper bound of the vertical axis.

use vstd::prelude::*;
use vstd::string::*;
use crate::series::{LossCounters, LossCountersView};
use crate::stats::{stats_view, Stats, StatsView};

verus! {

/// The character of the decimal digit `d`.
pub open spec fn digit_char(d: nat) -> char {
    if d == 0 {
        '0'
    } else if d == 1 {
        '1'
    } else if d == 2 {
        '2'
    } else if d == 3 {
        '3'
    } else if d == 4 {
        '4'
    } else if d == 5 {
        '5'
    } else if d == 6 {
        '6'
    } else if d == 7 {
        '7'
    } else if d == 8 {
        '8'
    } else {
        '9'
    }
}

/// `n` in decimal digits, without leading zeros.
pub open spec fn decimal_text(n: nat) -> Seq<char>
    decreases n,
{
    if n < 10 {
        seq![digit_char(n)]
    } else {
        decimal_text(n / 10).push(digit_char(n % 10))
    }
}

/// A number given in hundredths, written with two decimals.
pub open spec fn two_decimals(hundredths: nat) -> Seq<char> {
    decimal_text(hundredths / 100) + seq![
        '.',
        digit_char((hundredths / 10) % 10),
        digit_char(hundredths % 10),
    ]
}

/// A number given in tenths, written with one decimal.
pub open spec fn one_decimal(tenths: nat) -> Seq<char> {
    decimal_text(tenths / 10) + seq!['.', digit_char(tenths % 10)]
}

fn digit_str(d: u128) -> (text: &'static str)
    requires
        d < 10,
    ensures
        text@ == seq![digit_char(d as nat)],
{
    proof {
        reveal_strlit("0");
        reveal_strlit("1");
        reveal_strlit("2");
        reveal_strlit("3");
        reveal_strlit("4");
        reveal_strlit("5");
        reveal_strlit("6");
        reveal_strlit("7");
        reveal_strlit("8");
        reveal_strlit("9");
    }
    if d == 0 {
        "0"
    } else if d == 1 {
        "1"
    } else if d == 2 {
        "2"
    } else if d == 3 {
        "3"
    } else if d == 4 {
        "4"
    } else if d == 5 {
        "5"
    } else if d == 6 {
        "6"
    } else if d == 7 {
        "7"
    } else if d == 8 {
        "8"
    } else {
        "9"
    }
}

/// Writes `n` in decimal digits.
pub fn decimal(n: u128) -> (text: String)
    ensures
        text@ == decimal_text(n as nat),
    decreases n,
{
    if n < 10 {
        String::from_str(digit_str(n))
    } else {
        decimal(n / 10).concat(digit_str(n % 10))
    }
}

/// Writes a number given in hundredths with two decimals.
pub fn format_hundredths(hundredths: u128) -> (text: String)
    ensures
        text@ == two_decimals(hundredths as nat),
{
    proof {
        reveal_strlit(".");
    }
    decimal(hundredths / 100).concat(".").concat(digit_str((hundredths / 10) % 10)).concat(
        digit_str(hundredths % 10),
    )
}

/// Writes a number given in tenths with one decimal.
pub fn format_tenths(tenths: u128) -> (text: String)
    ensures
        text@ == one_decimal(tenths as nat),
{
    proof {
        reveal_strlit(".");
    }
    decimal(tenths / 10).concat(".").concat(digit_str(tenths % 10))
}

/// The text of the latency statistics: best, worst and average in
/// milliseconds with two decimals, or a notice while there are none.
pub open spec fn latency_text(stats: Option<StatsView>) -> Seq<char> {
    match stats {
        None => "No ping times available."@,
        Some(s) => two_decimals(s.best as nat * 100) + "ms best, "@ + two_decimals(
            s.worst as nat * 100,
        ) + "ms worst, "@ + two_decimals(s.average_hundredths()) + "ms average"@,
    }
}

/// The text of the loss counters: the share of lost cycles in percent with
/// one decimal, then the lost and the attempted cycles.
pub open spec fn loss_text(counters: LossCountersView) -> Seq<char> {
    "Loss: "@ + one_decimal(counters.loss_tenths()) + "% ("@ + decimal_text(counters.lost_count)
        + "/"@ + decimal_text(counters.total_attempts) + ")"@
}

/// The whole line: the latency statistics, and behind them the loss
/// counters where there are statistics.
pub open spec fn stats_text(stats: Option<StatsView>, counters: LossCountersView) -> Seq<char> {
    match stats {
        None => latency_text(stats),
        Some(_) => latency_text(stats) + " \u{2014} "@ + loss_text(counters),
    }
}

/// Writes the latency statistics.
pub fn latency_line(stats: &Option<Stats>) -> (line: String)
    ensures
        line@ == latency_text(stats_view(*stats)),
{
    match stats {
        None => String::from_str("No ping times available."),
        Some(s) => {
            let best: u128 = s.best() as u128 * 100;
            let worst: u128 = s.worst() as u128 * 100;
            format_hundredths(best).concat("ms best, ").concat(
                format_hundredths(worst).as_str(),
            ).concat("ms worst, ").concat(
                format_hundredths(s.average_hundredths()).as_str(),
            ).concat("ms average")
        },
    }
}

/// Writes the loss counters.
pub fn loss_line(counters: &LossCounters) -> (line: String)
    ensures
        line@ == loss_text(counters@),
{
    String::from_str("Loss: ").concat(
        format_tenths(counters.loss_tenths() as u128).as_str(),
    ).concat("% (").concat(decimal(counters.lost_count() as u128).as_str()).concat("/").concat(
        decimal(counters.total_attempts() as u128).as_str(),
    ).concat(")")
}

/// Writes the line that a display shows under the plot.
pub fn stats_line(stats: &Option<Stats>, counters: &LossCounters) -> (line: String)
    ensures
        line@ == stats_text(stats_view(*stats), counters@),
{
    match stats {
        None => latency_line(stats),
        Some(_) => latency_line(stats).concat(" \u{2014} ").concat(loss_line(counters).as_str()),
    }
}

/// The room kept above the worst latency on an automatic axis.
pub const AXIS_HEADROOM: u64 = 10;

/// The worst latency assumed on an automatic axis while there are no
/// statistics.
pub const AXIS_FALLBACK_WORST: u64 = 100;

/// The least upper bound that can be pinned.
pub const AXIS_MANUAL_MIN: u64 = 10;

/// The greatest upper bound that can be pinned.
pub const AXIS_MANUAL_MAX: u64 = 2000;

/// The upper bound that is pinned at start.
pub const AXIS_MANUAL_DEFAULT: u64 = 200;

/// How the vertical axis of the plot is scaled.
#[derive(Clone, Copy, Debug, PartialEq, Eq, Structural)]
pub struct AxisScale {
    /// Whether the upper bound follows the worst latency.
    pub auto: bool,
    /// The upper bound to use where it does not.
    pub manual_max: u64,
}

impl AxisScale {
    /// The upper bound of the axis: on an automatic axis the worst latency
    /// (`worst`, or 100 without one) and 10 above it, as far as the number
    /// range goes; on a pinned axis the pinned bound, held within 10 and
    /// 2000.
    pub open spec fn upper_bound_spec(self, worst: Option<u64>) -> u64 {
        if self.auto {
            let top = match worst {
                Some(w) => w,
                None => AXIS_FALLBACK_WORST,
            };
            if top + AXIS_HEADROOM > u64::MAX {
                u64::MAX
            } else {
                (top + AXIS_HEADROOM) as u64
            }
        } else if self.manual_max < AXIS_MANUAL_MIN {
            AXIS_MANUAL_MIN
        } else if self.manual_max > AXIS_MANUAL_MAX {
            AXIS_MANUAL_MAX
        } else {
            self.manual_max
        }
    }

    /// The scale at start: automatic, with 200 as the bound to pin.
    pub fn new() -> (scale: Self)
        ensures
            scale == (AxisScale { auto: true, manual_max: AXIS_MANUAL_DEFAULT }),
    {
        AxisScale { auto: true, manual_max: AXIS_MANUAL_DEFAULT }
    }

    /// The upper bound of the axis for the statistics as they stand.
    pub fn upper_bound(&self, stats: &Option<Stats>) -> (bound: u64)
        ensures
            bound == self.upper_bound_spec(
                match stats_view(*stats) {
                    Some(s) => Some(s.worst),
                    None => None,
                },
            ),
    {
        if self.auto {
            let top: u64 = match stats {
                Some(s) => s.worst(),
                None => AXIS_FALLBACK_WORST,
            };
            if top > u64::MAX - AXIS_HEADROOM {
                u64::MAX
            } else {
                top + AXIS_HEADROOM
            }
        } else if self.manual_max < AXIS_MANUAL_MIN {
            AXIS_MANUAL_MIN
        } else if self.manual_max > AXIS_MANUAL_MAX {
            AXIS_MANUAL_MAX
        } else {
            self.manual_max
        }
    }
}

impl Default for AxisScale {
    fn default() -> (value: Self)
        ensures
            value == (AxisScale { auto: true, manual_max: AXIS_MANUAL_DEFAULT }),
    {
        AxisScale::new()
    }
}

/// The pause between two frames while the window has the focus, in
/// milliseconds.
pub const FOCUSED_FRAME_PAUSE_MS: u64 = 6;

/// The pause between two frames while it has not, in milliseconds.
pub const UNFOCUSED_FRAME_PAUSE_MS: u64 = 200;

/// The pause between two frames, in milliseconds: short while the window
/// has the focus, long while it has not.
pub fn frame_pause(focused: bool) -> (millis: u64)
    ensures
        millis == if focused {
            FOCUSED_FRAME_PAUSE_MS
        } else {
            UNFOCUSED_FRAME_PAUSE_MS
        },
{
    if focused {
        FOCUSED_FRAME_PAUSE_MS
    } else {
        UNFOCUSED_FRAME_PAUSE_MS
    }
}

} // verus!
