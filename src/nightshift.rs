use vstd::prelude::*;

use crate::command::NightShiftCommand;

verus! {

/// What is done to the colour temperature program.
#[derive(Clone, Copy, Debug, PartialEq, Eq, Structural)]
pub enum ShiftAction {
    Launch,
    Kill,
}

/// What a night-shift command does: an optional action, then the state shown.
#[derive(Clone, Copy, Debug, PartialEq, Eq, Structural)]
pub struct ShiftPlan {
    pub action: Option<ShiftAction>,
    pub on: bool,
}

/// Why a night-shift command was refused.
#[derive(Clone, Copy, Debug, PartialEq, Eq, Structural)]
pub enum NightShiftError {
    /// The colour temperature program is not installed.
    NotInstalled,
    /// Start was asked while the program runs.
    AlreadyRunning,
}

/// Starts, stops and reports the colour temperature program.
pub struct NightShiftSpec {
    pub silent: bool,
}

impl NightShiftSpec {
    pub fn new(silent: bool) -> (r: NightShiftSpec)
        ensures
            r.silent == silent,
    {
        NightShiftSpec { silent }
    }
}

/// The plan for a command, given whether the program is installed and
/// whether it runs.
pub fn plan(c: NightShiftCommand, installed: bool, running: bool) -> (r: Result<
    ShiftPlan,
    NightShiftError,
>)
    ensures
        !installed ==> r == Err::<ShiftPlan, NightShiftError>(NightShiftError::NotInstalled),
        installed && c is Start && running ==> r == Err::<ShiftPlan, NightShiftError>(
            NightShiftError::AlreadyRunning,
        ),
        installed && c is Start && !running ==> r == Ok::<ShiftPlan, NightShiftError>(
            ShiftPlan { action: Some(ShiftAction::Launch), on: true },
        ),
        installed && c is Stop ==> r == Ok::<ShiftPlan, NightShiftError>(
            ShiftPlan { action: Some(ShiftAction::Kill), on: false },
        ),
        installed && c is Toggle ==> r == Ok::<ShiftPlan, NightShiftError>(
            ShiftPlan {
                action: Some(if running { ShiftAction::Kill } else { ShiftAction::Launch }),
                on: !running,
            },
        ),
        installed && c is Status ==> r == Ok::<ShiftPlan, NightShiftError>(
            ShiftPlan { action: None, on: running },
        ),
{
    if !installed {
        return Err(NightShiftError::NotInstalled);
    }
    match c {
        NightShiftCommand::Start => {
            if running {
                Err(NightShiftError::AlreadyRunning)
            } else {
                Ok(ShiftPlan { action: Some(ShiftAction::Launch), on: true })
            }
        },
        NightShiftCommand::Stop => Ok(ShiftPlan { action: Some(ShiftAction::Kill), on: false }),
        NightShiftCommand::Toggle => {
            if running {
                Ok(ShiftPlan { action: Some(ShiftAction::Kill), on: false })
            } else {
                Ok(ShiftPlan { action: Some(ShiftAction::Launch), on: true })
            }
        },
        NightShiftCommand::Status => Ok(ShiftPlan { action: None, on: running }),
    }
}

} // verus!
