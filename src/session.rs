use vstd::prelude::*;

use crate::bridge::{iterate_failure, iterate_failure_spec, IterateOutcome, VolumeError};
use crate::command::VolumeCommand;
use crate::text::{percent_text, signed_decimal};
use crate::volume::{
    channels_percent, clamp_spec, from_native_spec, peak_spec, to_native_spec, DashiVolume,
};

verus! {

/// State of the connection to the audio server, as the server reports it.
#[derive(Clone, Copy, Debug, PartialEq, Eq, Structural)]
pub enum ConnectionState {
    Unconnected,
    Connecting,
    Authorizing,
    SettingName,
    Ready,
    Failed,
    Terminated,
}

/// A request sent to the audio server; each completes through a callback.
#[derive(Clone, Debug)]
pub enum Request {
    /// Query the default sink.
    SinkInfo,
    /// Query the default source.
    SourceInfo,
    /// Replace the default sink's channel levels.
    SetSinkVolume(Vec<u32>),
    /// Mute or unmute the default sink.
    SetSinkMute(bool),
    /// Mute or unmute the default source.
    SetSourceMute(bool),
}

/// What a completion callback delivers on success.
#[derive(Clone, Debug)]
pub enum Reply {
    /// The default sink's channel levels and mute flag.
    Sink { channels: Vec<u32>, muted: bool },
    /// The default source's mute flag.
    SourceMuted(bool),
    /// A change was applied.
    Applied,
}

/// The message that ends a successful session.
#[derive(Clone, Copy, Debug, PartialEq, Eq, Structural)]
pub enum Notice {
    /// Output volume at this percentage.
    Volume(DashiVolume),
    /// Output muted.
    VolumeMuted,
    /// Output reported as enabled (microphone query on an unmuted source).
    VolumeEnabled,
    /// Microphone muted.
    MicrophoneDisabled,
    /// Microphone unmuted.
    MicrophoneEnabled,
}

/// What the driver of a session does next.
#[derive(Clone, Debug)]
pub enum Action {
    /// Drive one blocking turn of the event loop.
    Iterate,
    /// Send this request, then drive one turn of the event loop.
    Issue(Request),
    /// The session is over; show this notice.
    Finish(Notice),
    /// The session is over with this error.
    Fail(VolumeError),
}

/// What the driver saw after one turn of the event loop.
#[derive(Clone, Debug)]
pub struct Event {
    /// What the turn reported.
    pub outcome: IterateOutcome,
    /// The connection state after the turn.
    pub state: ConnectionState,
    /// The completion taken from the pending request's cell, if any.
    pub reply: Option<Result<Reply, VolumeError>>,
}

/// Where a session stands.
#[derive(Clone, Copy, Debug, PartialEq, Eq, Structural)]
pub enum Phase {
    /// Waiting for the connection to become ready.
    Connecting,
    /// Waiting for the default sink's description.
    AwaitSink,
    /// Waiting for the default source's description.
    AwaitSource,
    /// Waiting for new sink levels to be applied.
    AwaitSinkVolume { volume: DashiVolume },
    /// Waiting for the sink's mute flag to be flipped.
    AwaitSinkMute { was_muted: bool, volume: DashiVolume },
    /// Waiting for the source's mute flag to be flipped.
    AwaitSourceMute { was_muted: bool },
    /// Done, successfully or not.
    Finished,
}

/// One run of a volume command against the audio server, from connection to
/// the final notice, driven one event-loop turn at a time.
#[derive(Clone, Copy, Debug, PartialEq, Eq, Structural)]
pub struct VolumeSession {
    pub command: VolumeCommand,
    pub phase: Phase,
}

/// Whether a connection state ends the connection attempt in failure.
pub open spec fn is_refused(s: ConnectionState) -> bool {
    s is Unconnected || s is Failed || s is Terminated
}

/// Whether a command starts by querying the microphone.
pub open spec fn queries_source(c: VolumeCommand) -> bool {
    c is MutedMic || c is MuteMic
}

/// Every entry of `s` equals `level`.
pub open spec fn all_at(s: Seq<u32>, level: int) -> bool {
    forall|i: int| 0 <= i < s.len() ==> s[i] == level
}

/// The volume a command asks for, given the current one.
pub open spec fn target_percent(c: VolumeCommand, current: int) -> int {
    match c {
        VolumeCommand::Add { n } => clamp_spec(current + clamp_spec(n as int)),
        VolumeCommand::Sub { n } => clamp_spec(current - clamp_spec(n as int)),
        VolumeCommand::SetTo { n } => clamp_spec(n as int),
        _ => current,
    }
}

/// Whether a command changes the output level.
pub open spec fn changes_level(c: VolumeCommand) -> bool {
    c is Add || c is Sub || c is SetTo
}

/// The step taken once the sink is described by `channels` and `muted`.
pub open spec fn after_sink(
    c: VolumeCommand,
    channels: Seq<u32>,
    muted: bool,
    t: Phase,
    a: Action,
) -> bool {
    let current = from_native_spec(peak_spec(channels));
    if changes_level(c) {
        let v = target_percent(c, current);
        &&& t matches Phase::AwaitSinkVolume { volume } && volume.percent() == v
        &&& a matches Action::Issue(Request::SetSinkVolume(sent)) && sent@.len() == channels.len()
            && all_at(sent@, to_native_spec(v))
    } else if c is Get {
        t is Finished && (a matches Action::Finish(Notice::Volume(vol)) && vol.percent() == current)
    } else if c is Muted {
        &&& t is Finished
        &&& muted ==> a == Action::Finish(Notice::VolumeMuted)
        &&& !muted ==> (a matches Action::Finish(Notice::Volume(vol)) && vol.percent() == current)
    } else if c is Mute {
        &&& t matches Phase::AwaitSinkMute { was_muted, volume } && was_muted == muted
            && volume.percent() == current
        &&& a matches Action::Issue(Request::SetSinkMute(m)) && m == !muted
    } else {
        t is Finished && a == Action::Fail(VolumeError::Internal)
    }
}

/// The step taken once the source reports its mute flag.
pub open spec fn after_source(c: VolumeCommand, muted: bool, t: Phase, a: Action) -> bool {
    if c is MutedMic {
        &&& t is Finished
        &&& muted ==> a == Action::Finish(Notice::MicrophoneDisabled)
        &&& !muted ==> a == Action::Finish(Notice::VolumeEnabled)
    } else if c is MuteMic {
        t == Phase::AwaitSourceMute { was_muted: muted } && a == Action::Issue(
            Request::SetSourceMute(!muted),
        )
    } else {
        t is Finished && a == Action::Fail(VolumeError::Internal)
    }
}

/// The step taken on a successful completion in phase `p`.
pub open spec fn after_reply(c: VolumeCommand, p: Phase, reply: Reply, t: Phase, a: Action) -> bool {
    match (p, reply) {
        (Phase::AwaitSink, Reply::Sink { channels, muted }) => after_sink(
            c,
            channels@,
            muted,
            t,
            a,
        ),
        (Phase::AwaitSource, Reply::SourceMuted(muted)) => after_source(c, muted, t, a),
        (Phase::AwaitSinkVolume { volume }, Reply::Applied) => t is Finished && a == Action::Finish(
            Notice::Volume(volume),
        ),
        (Phase::AwaitSinkMute { was_muted, volume }, Reply::Applied) => t is Finished && a
            == Action::Finish(
            if was_muted {
                Notice::Volume(volume)
            } else {
                Notice::VolumeMuted
            },
        ),
        (Phase::AwaitSourceMute { was_muted }, Reply::Applied) => t is Finished && a
            == Action::Finish(
            if was_muted {
                Notice::MicrophoneEnabled
            } else {
                Notice::MicrophoneDisabled
            },
        ),
        _ => t is Finished && a == Action::Fail(VolumeError::Internal),
    }
}

/// The step a session in state `s` takes on event `e`, ending in state `t`
/// with action `a`.
pub open spec fn transition(s: VolumeSession, e: Event, t: VolumeSession, a: Action) -> bool {
    &&& t.command == s.command
    &&& if s.phase is Finished {
        t.phase is Finished && a == Action::Fail(VolumeError::Internal)
    } else if iterate_failure_spec(e.outcome) is Some {
        t.phase is Finished && a == Action::Fail(iterate_failure_spec(e.outcome)->0)
    } else if s.phase is Connecting {
        if e.state is Ready {
            if queries_source(s.command) {
                t.phase is AwaitSource && a == Action::Issue(Request::SourceInfo)
            } else {
                t.phase is AwaitSink && a == Action::Issue(Request::SinkInfo)
            }
        } else if is_refused(e.state) {
            t.phase is Finished && a == Action::Fail(VolumeError::Access)
        } else {
            t.phase is Connecting && a is Iterate
        }
    } else {
        match e.reply {
            None => t.phase == s.phase && a is Iterate,
            Some(Err(err)) => t.phase is Finished && a == Action::Fail(err),
            Some(Ok(reply)) => after_reply(s.command, s.phase, reply, t.phase, a),
        }
    }
}

impl VolumeSession {
    /// A session for `command` whose connection has just been requested.
    pub fn new(command: VolumeCommand) -> (r: VolumeSession)
        ensures
            r.command == command,
            r.phase is Connecting,
    {
        VolumeSession { command, phase: Phase::Connecting }
    }

    /// Whether the session is over.
    pub fn is_finished(&self) -> (r: bool)
        ensures
            r == (self.phase is Finished),
    {
        matches!(self.phase, Phase::Finished)
    }

    fn finish(&mut self, a: Action) -> (r: Action)
        ensures
            final(self).command == old(self).command,
            final(self).phase is Finished,
            r == a,
    {
        self.phase = Phase::Finished;
        a
    }

    fn on_sink(&mut self, channels: Vec<u32>, muted: bool) -> (r: Action)
        requires
            old(self).phase is AwaitSink,
        ensures
            final(self).command == old(self).command,
            after_sink(old(self).command, channels@, muted, final(self).phase, r),
    {
        let current = channels_percent(&channels);
        let target = match self.command {
            VolumeCommand::Add { n } => Some(current.add(DashiVolume::from_percent(n))),
            VolumeCommand::Sub { n } => Some(current.sub(DashiVolume::from_percent(n))),
            VolumeCommand::SetTo { n } => Some(DashiVolume::from_percent(n)),
            _ => None,
        };
        match target {
            Some(volume) => {
                let mut sent = channels;
                volume.set(&mut sent);
                self.phase = Phase::AwaitSinkVolume { volume };
                Action::Issue(Request::SetSinkVolume(sent))
            },
            None => match self.command {
                VolumeCommand::Get => self.finish(Action::Finish(Notice::Volume(current))),
                VolumeCommand::Muted => {
                    if muted {
                        self.finish(Action::Finish(Notice::VolumeMuted))
                    } else {
                        self.finish(Action::Finish(Notice::Volume(current)))
                    }
                },
                VolumeCommand::Mute => {
                    self.phase = Phase::AwaitSinkMute { was_muted: muted, volume: current };
                    Action::Issue(Request::SetSinkMute(!muted))
                },
                _ => self.finish(Action::Fail(VolumeError::Internal)),
            },
        }
    }

    fn on_source(&mut self, muted: bool) -> (r: Action)
        requires
            old(self).phase is AwaitSource,
        ensures
            final(self).command == old(self).command,
            after_source(old(self).command, muted, final(self).phase, r),
    {
        match self.command {
            VolumeCommand::MutedMic => {
                if muted {
                    self.finish(Action::Finish(Notice::MicrophoneDisabled))
                } else {
                    self.finish(Action::Finish(Notice::VolumeEnabled))
                }
            },
            VolumeCommand::MuteMic => {
                self.phase = Phase::AwaitSourceMute { was_muted: muted };
                Action::Issue(Request::SetSourceMute(!muted))
            },
            _ => self.finish(Action::Fail(VolumeError::Internal)),
        }
    }

    fn on_reply(&mut self, reply: Reply) -> (r: Action)
        requires
            !(old(self).phase is Finished),
            !(old(self).phase is Connecting),
        ensures
            final(self).command == old(self).command,
            after_reply(old(self).command, old(self).phase, reply, final(self).phase, r),
    {
        match (self.phase, reply) {
            (Phase::AwaitSink, Reply::Sink { channels, muted }) => self.on_sink(channels, muted),
            (Phase::AwaitSource, Reply::SourceMuted(muted)) => self.on_source(muted),
            (Phase::AwaitSinkVolume { volume }, Reply::Applied) => self.finish(
                Action::Finish(Notice::Volume(volume)),
            ),
            (Phase::AwaitSinkMute { was_muted, volume }, Reply::Applied) => {
                if was_muted {
                    self.finish(Action::Finish(Notice::Volume(volume)))
                } else {
                    self.finish(Action::Finish(Notice::VolumeMuted))
                }
            },
            (Phase::AwaitSourceMute { was_muted }, Reply::Applied) => {
                if was_muted {
                    self.finish(Action::Finish(Notice::MicrophoneEnabled))
                } else {
                    self.finish(Action::Finish(Notice::MicrophoneDisabled))
                }
            },
            _ => self.finish(Action::Fail(VolumeError::Internal)),
        }
    }

    /// Advances the session by what one turn of the event loop brought.
    ///
    /// While connecting, a ready connection issues the command's first query
    /// (the source for the microphone commands, the sink otherwise), a refused
    /// one fails with `Access`, and any other state keeps iterating. While a
    /// request is pending, an empty cell keeps iterating, a callback error
    /// ends the session with it, and a reply moves the command on. A loop that
    /// quits or fails ends the session at any phase.
    pub fn step(&mut self, e: Event) -> (r: Action)
        ensures
            transition(*old(self), e, *final(self), r),
    {
        if self.is_finished() {
            return Action::Fail(VolumeError::Internal);
        }
        match iterate_failure(e.outcome) {
            Some(err) => {
                return self.finish(Action::Fail(err));
            },
            None => {},
        }
        if matches!(self.phase, Phase::Connecting) {
            match e.state {
                ConnectionState::Ready => {
                    match self.command {
                        VolumeCommand::MutedMic | VolumeCommand::MuteMic => {
                            self.phase = Phase::AwaitSource;
                            Action::Issue(Request::SourceInfo)
                        },
                        _ => {
                            self.phase = Phase::AwaitSink;
                            Action::Issue(Request::SinkInfo)
                        },
                    }
                },
                ConnectionState::Unconnected
                | ConnectionState::Failed
                | ConnectionState::Terminated => self.finish(Action::Fail(VolumeError::Access)),
                _ => Action::Iterate,
            }
        } else {
            match e.reply {
                None => Action::Iterate,
                Some(Err(err)) => self.finish(Action::Fail(err)),
                Some(Ok(reply)) => self.on_reply(reply),
            }
        }
    }
}

impl Notice {
    /// The notification title.
    pub fn title(&self) -> (r: &'static str)
        ensures
            (self is Volume || self is VolumeMuted || self is VolumeEnabled) ==> r@ == "Volume"@,
            (self is MicrophoneDisabled || self is MicrophoneEnabled) ==> r@ == "Microphone"@,
    {
        match self {
            Notice::Volume(_) | Notice::VolumeMuted | Notice::VolumeEnabled => "Volume",
            Notice::MicrophoneDisabled | Notice::MicrophoneEnabled => "Microphone",
        }
    }

    /// The notification text: a percentage such as `40%`, or the state word.
    pub fn body(&self) -> (r: String)
        ensures
            self matches Notice::Volume(v) ==> r@ == signed_decimal(v.percent()) + seq!['%'],
            self is VolumeMuted ==> r@ == "Muted"@,
            (self is VolumeEnabled || self is MicrophoneEnabled) ==> r@ == "Enabled"@,
            self is MicrophoneDisabled ==> r@ == "Disabled"@,
    {
        match self {
            Notice::Volume(v) => percent_text(v.0),
            Notice::VolumeMuted => String::from_str("Muted"),
            Notice::VolumeEnabled | Notice::MicrophoneEnabled => String::from_str("Enabled"),
            Notice::MicrophoneDisabled => String::from_str("Disabled"),
        }
    }
}

/// Drives the output and input volume of the audio server.
pub struct VolumeSpec {
    pub silent: bool,
}

impl VolumeSpec {
    pub fn new(silent: bool) -> (r: VolumeSpec)
        ensures
            r.silent == silent,
    {
        VolumeSpec { silent }
    }

    /// The session that carries out `modifier`, before its connection is ready.
    pub fn session(&self, modifier: VolumeCommand) -> (r: VolumeSession)
        ensures
            r.command == modifier,
            r.phase is Connecting,
    {
        VolumeSession::new(modifier)
    }
}

/// A session whose connection is reported refused (unconnected, failed or
/// terminated) on its first turn ends at once, issuing no query: with
/// `Access` when the loop turned normally, with the loop's own failure
/// otherwise.
pub proof fn lemma_refused_connection_issues_nothing(
    command: VolumeCommand,
    e: Event,
    t: VolumeSession,
    a: Action,
)
    requires
        is_refused(e.state),
        transition(VolumeSession { command, phase: Phase::Connecting }, e, t, a),
    ensures
        t.phase is Finished,
        !(a is Issue),
        e.outcome is Success ==> a == Action::Fail(VolumeError::Access),
{
}

} // verus!
