use vstd::prelude::*;

verus! {

/// What to change in the volume subsystem.
#[derive(Clone, Copy, Debug, PartialEq, Eq, Structural)]
pub enum VolumeCommand {
    Add { n: u32 },
    Sub { n: u32 },
    SetTo { n: u32 },
    Get,
    Muted,
    MutedMic,
    Mute,
    MuteMic,
}

/// What to change in the display backlight.
#[derive(Clone, Copy, Debug, PartialEq, Eq, Structural)]
pub enum BrightnessCommand {
    Add { n: u32 },
    Sub { n: u32 },
    SetTo { n: u32 },
    Get,
}

/// What to do with the bookmark list.
#[derive(Clone, Debug)]
pub enum BookmarkCommand {
    Stdout,
    Add { bookmark: String },
    Remove { index: usize },
}

/// What to do with the bluetooth service.
#[derive(Clone, Copy, Debug, PartialEq, Eq, Structural)]
pub enum BluetoothCommand {
    Toggle,
    Start,
    Stop,
    Status,
}

/// What to report about the battery.
#[derive(Clone, Copy, Debug, PartialEq, Eq, Structural)]
pub enum PowerCommand {
    Level,
    Plugged,
    Info,
    Daemon,
}

/// What to do with the night-shift colour temperature daemon.
#[derive(Clone, Copy, Debug, PartialEq, Eq, Structural)]
pub enum NightShiftCommand {
    Start,
    Stop,
    Toggle,
    Status,
}

/// A subcommand of the utility, with its modifier.
#[allow(inconsistent_fields)]
#[derive(Clone, Debug)]
pub enum Command {
    Brightness { modifier: BrightnessCommand },
    Volume { modifier: VolumeCommand },
    Bookmark { modifier: BookmarkCommand },
    Bluetooth { modifier: BluetoothCommand },
    Power { modifier: PowerCommand },
    Nightshift { modifier: NightShiftCommand },
}

} // verus!
