use vstd::prelude::*;

use crate::command::BluetoothCommand;

verus! {

/// A call on the service manager for the bluetooth unit.
#[derive(Clone, Copy, Debug, PartialEq, Eq, Structural)]
pub enum UnitCall {
    StartUnit,
    StopUnit,
}

/// What a bluetooth command does: an optional call, then the state shown.
#[derive(Clone, Copy, Debug, PartialEq, Eq, Structural)]
pub struct BluetoothPlan {
    pub call: Option<UnitCall>,
    pub enabled: bool,
}

/// Toggles and reports the bluetooth service.
pub struct BluetoothSpec {
    pub silent: bool,
}

impl BluetoothSpec {
    pub fn new(silent: bool) -> (r: BluetoothSpec)
        ensures
            r.silent == silent,
    {
        BluetoothSpec { silent }
    }
}

/// Whether a unit's active state, as the service manager words it, means
/// that the unit runs.
pub fn is_active_state(state: &str) -> (r: bool)
    ensures
        r == (state@ == "active"@),
{
    let word = "active";
    proof {
        reveal_strlit("active");
    }
    let n = state.unicode_len();
    if n != 6 {
        return false;
    }
    let mut i: usize = 0;
    while i < 6
        invariant
            n == 6,
            state@.len() == 6,
            word@.len() == 6,
            i <= 6,
            forall|j: int| 0 <= j < i ==> state@[j] == word@[j],
            word@ == "active"@,
        decreases 6 - i,
    {
        if state.get_char(i) != word.get_char(i) {
            assert(state@[i as int] != word@[i as int]);
            return false;
        }
        i = i + 1;
    }
    assert(state@ =~= word@);
    true
}

/// Whether a command needs the service's current state.
pub fn needs_status(c: BluetoothCommand) -> (r: bool)
    ensures
        r == (c is Toggle || c is Status),
{
    match c {
        BluetoothCommand::Toggle | BluetoothCommand::Status => true,
        _ => false,
    }
}

/// The plan for a command, given whether the service is active (ignored by
/// start and stop): toggling stops an active service and starts an inactive
/// one; the state shown is the one the service ends in.
pub fn plan(c: BluetoothCommand, active: bool) -> (r: BluetoothPlan)
    ensures
        c is Start ==> r == (BluetoothPlan { call: Some(UnitCall::StartUnit), enabled: true }),
        c is Stop ==> r == (BluetoothPlan { call: Some(UnitCall::StopUnit), enabled: false }),
        c is Status ==> r == (BluetoothPlan { call: None, enabled: active }),
        c is Toggle ==> r == (BluetoothPlan {
            call: Some(if active { UnitCall::StopUnit } else { UnitCall::StartUnit }),
            enabled: !active,
        }),
{
    match c {
        BluetoothCommand::Start => BluetoothPlan { call: Some(UnitCall::StartUnit), enabled: true },
        BluetoothCommand::Stop => BluetoothPlan { call: Some(UnitCall::StopUnit), enabled: false },
        BluetoothCommand::Status => BluetoothPlan { call: None, enabled: active },
        BluetoothCommand::Toggle => {
            if active {
                BluetoothPlan { call: Some(UnitCall::StopUnit), enabled: false }
            } else {
                BluetoothPlan { call: Some(UnitCall::StartUnit), enabled: true }
            }
        },
    }
}

} // verus!
