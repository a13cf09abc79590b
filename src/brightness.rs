use vstd::prelude::*;

use crate::command::BrightnessCommand;

verus! {

/// Largest brightness percentage ever reported.
pub const MAX_BRIGHTNESS_PERCENT: u32 = 100;

/// Brightness as a percentage of the device's maximum, truncated, rounded to
/// a multiple of five by `(p + 2) / 5 * 5`, never above 100.
pub open spec fn brightness_percent_spec(raw: int, max: int) -> int {
    let p = raw * 100 / max;
    let rounded = (p + 2) / 5 * 5;
    if rounded > MAX_BRIGHTNESS_PERCENT {
        MAX_BRIGHTNESS_PERCENT as int
    } else {
        rounded
    }
}

/// The percentage a command asks for, given the current one; `None` for a
/// plain query.
pub open spec fn requested_percent_spec(c: BrightnessCommand, current: int) -> Option<int> {
    match c {
        BrightnessCommand::Add { n } => Some(current + n),
        BrightnessCommand::Sub { n } => Some(current - n),
        BrightnessCommand::SetTo { n } => Some(n as int),
        BrightnessCommand::Get => None,
    }
}

/// A requested percentage in hundredths of a percent, kept within
/// `[0.01, 100]` so that the backlight is never switched fully off.
pub open spec fn clamped_hundredths(percent: int) -> int {
    if percent <= 0 {
        1
    } else if percent >= 100 {
        10000
    } else {
        percent * 100
    }
}

/// The raw level written for a requested percentage, truncated.
pub open spec fn raw_for_percent_spec(percent: int, max: int) -> int {
    clamped_hundredths(percent) * max / 10000
}

/// What is shown after a change.
#[derive(Clone, Copy, Debug, PartialEq, Eq, Structural)]
pub enum BrightnessNotice {
    /// The backlight sits at its lowest level.
    Minimum,
    /// The backlight sits at this percentage.
    Percent(u32),
}

/// Reads and writes the display backlight.
pub struct BrightnessSpec {
    pub silent: bool,
}

impl BrightnessSpec {
    pub fn new(silent: bool) -> (r: BrightnessSpec)
        ensures
            r.silent == silent,
    {
        BrightnessSpec { silent }
    }
}

/// The brightness percentage for a raw level and the device's maximum;
/// `None` when the maximum is zero.
pub fn brightness_percent(raw: u32, max: u32) -> (r: Option<u32>)
    ensures
        max == 0 <==> r is None,
        r is Some ==> r->0 == brightness_percent_spec(raw as int, max as int),
{
    if max == 0 {
        return None;
    }
    let scaled: u64 = raw as u64 * 100;
    let p: u64 = scaled / max as u64;
    assert(p <= scaled) by (nonlinear_arith)
        requires
            p == scaled / max as u64,
            max > 0,
    ;
    let rounded: u64 = (p + 2) / 5 * 5;
    if rounded > MAX_BRIGHTNESS_PERCENT as u64 {
        Some(MAX_BRIGHTNESS_PERCENT)
    } else {
        Some(rounded as u32)
    }
}

/// The percentage a command asks for, given the current one.
pub fn requested_percent(c: BrightnessCommand, current: u32) -> (r: Option<i64>)
    ensures
        r matches Some(p) ==> requested_percent_spec(c, current as int) == Some(p as int),
        r is None <==> requested_percent_spec(c, current as int) is None,
{
    match c {
        BrightnessCommand::Add { n } => Some(current as i64 + n as i64),
        BrightnessCommand::Sub { n } => Some(current as i64 - n as i64),
        BrightnessCommand::SetTo { n } => Some(n as i64),
        BrightnessCommand::Get => None,
    }
}

/// The raw level to write for a requested percentage: the percentage is kept
/// within `[0.01, 100]`, then scaled to the device's maximum and truncated.
pub fn raw_for_percent(percent: i64, max: u32) -> (r: u32)
    ensures
        r == raw_for_percent_spec(percent as int, max as int),
        r <= max,
{
    let hundredths: u64 = if percent <= 0 {
        1
    } else if percent >= 100 {
        10000
    } else {
        percent as u64 * 100
    };
    assert(hundredths * max <= 10000 * 0xffff_ffffu64) by (nonlinear_arith)
        requires
            1 <= hundredths <= 10000,
            max <= 0xffff_ffffu64,
    ;
    let product: u64 = hundredths * max as u64;
    let r: u64 = product / 10000;
    assert(r <= max) by (nonlinear_arith)
        requires
            r == product / 10000,
            product == hundredths * max,
            1 <= hundredths <= 10000,
    ;
    r as u32
}

/// The notice for a brightness percentage: zero reads as the minimum.
pub fn brightness_notice(percent: u32) -> (r: BrightnessNotice)
    ensures
        percent == 0 ==> r == BrightnessNotice::Minimum,
        percent != 0 ==> r == BrightnessNotice::Percent(percent),
{
    if percent == 0 {
        BrightnessNotice::Minimum
    } else {
        BrightnessNotice::Percent(percent)
    }
}

} // verus!
