use vstd::prelude::*;

verus! {

/// Capacity, in percent, at or below which an unplugged battery is reported low.
pub const LOW_BATTERY_PERCENT: u32 = 20;

/// Reports the battery's state.
pub struct PowerSpec {
    pub silent: bool,
}

impl PowerSpec {
    pub fn new(silent: bool) -> (r: PowerSpec)
        ensures
            r.silent == silent,
    {
        PowerSpec { silent }
    }
}

/// Whether the mains adapter is online, from its attribute value.
pub fn plugged_from(value: u32) -> (r: bool)
    ensures
        r == (value != 0),
{
    value != 0
}

/// Whether a battery report reads as low: unplugged, at or below the
/// threshold.
pub fn is_low_report(capacity: u32, plugged: bool) -> (r: bool)
    ensures
        r == (!plugged && capacity <= LOW_BATTERY_PERCENT),
{
    !plugged && capacity <= LOW_BATTERY_PERCENT
}

/// Whether the watching daemon raises a warning: unplugged, strictly below
/// the threshold.
pub fn should_warn(capacity: u32, plugged: bool) -> (r: bool)
    ensures
        r == (!plugged && capacity < LOW_BATTERY_PERCENT),
{
    !plugged && capacity < LOW_BATTERY_PERCENT
}

} // verus!
