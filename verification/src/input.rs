//! Input snapshots and the one-shot commands read off their rising edges.

use vstd::prelude::*;

verus! {

/// Which control signals are held at one moment.
///
/// The first seven are continuous: they matter for as long as they are held.
/// The last four belong to replay; three of them are one-shot commands that
/// fire only on the snapshot in which they turn from released to held.
#[derive(Clone, Copy, Debug, PartialEq, Eq, Structural)]
pub struct InputState {
    pub up: bool,
    pub down: bool,
    pub left: bool,
    pub right: bool,
    pub kill: bool,
    pub report: bool,
    pub activate: bool,
    pub play: bool,
    pub skip_back: bool,
    pub skip_forward: bool,
    pub pause_playback: bool,
}

/// A one-shot replay command.
#[derive(Clone, Copy, Debug, PartialEq, Eq, Structural)]
pub enum PlaybackCommand {
    /// Jump back by one seek step.
    SeekBack,
    /// Jump forward by one seek step.
    SeekForward,
    /// Pause if running, resume if paused.
    TogglePause,
}

/// A signal fires when it is held now and was released before.
pub open spec fn rising(before: bool, now: bool) -> bool {
    now && !before
}

impl InputState {
    /// The snapshot with nothing held.
    pub open spec fn spec_released() -> InputState {
        InputState {
            up: false,
            down: false,
            left: false,
            right: false,
            kill: false,
            report: false,
            activate: false,
            play: false,
            skip_back: false,
            skip_forward: false,
            pause_playback: false,
        }
    }

    /// The continuous part of the snapshot: the replay signals are released.
    pub open spec fn spec_continuous(self) -> InputState {
        InputState {
            play: false,
            skip_back: false,
            skip_forward: false,
            pause_playback: false,
            ..self
        }
    }

    /// The command that this snapshot fires, coming after `previous`.
    ///
    /// At most one command fires per snapshot. Where several signals rise
    /// together, seeking back wins over seeking forward, and both win over
    /// the pause toggle.
    pub open spec fn spec_command_since(self, previous: InputState) -> Option<PlaybackCommand> {
        if rising(previous.skip_back, self.skip_back) {
            Some(PlaybackCommand::SeekBack)
        } else if rising(previous.skip_forward, self.skip_forward) {
            Some(PlaybackCommand::SeekForward)
        } else if rising(previous.pause_playback, self.pause_playback) {
            Some(PlaybackCommand::TogglePause)
        } else {
            None
        }
    }

    /// A snapshot with nothing held.
    pub fn released() -> (s: InputState)
        ensures
            s == InputState::spec_released(),
    {
        InputState {
            up: false,
            down: false,
            left: false,
            right: false,
            kill: false,
            report: false,
            activate: false,
            play: false,
            skip_back: false,
            skip_forward: false,
            pause_playback: false,
        }
    }

    /// Drops the replay signals and keeps the rest.
    pub fn continuous(&self) -> (s: InputState)
        ensures
            s == self.spec_continuous(),
    {
        InputState {
            up: self.up,
            down: self.down,
            left: self.left,
            right: self.right,
            kill: self.kill,
            report: self.report,
            activate: self.activate,
            play: false,
            skip_back: false,
            skip_forward: false,
            pause_playback: false,
        }
    }

    /// Compares this snapshot with the one before it and returns the command
    /// that fires, if any.
    pub fn command_since(&self, previous: &InputState) -> (c: Option<PlaybackCommand>)
        ensures
            c == self.spec_command_since(*previous),
    {
        if self.skip_back && !previous.skip_back {
            Some(PlaybackCommand::SeekBack)
        } else if self.skip_forward && !previous.skip_forward {
            Some(PlaybackCommand::SeekForward)
        } else if self.pause_playback && !previous.pause_playback {
            Some(PlaybackCommand::TogglePause)
        } else {
            None
        }
    }
}

/// A signal that stays held does not fire again: of two snapshots in a row
/// that both hold a signal, the second never fires that signal's command.
pub proof fn lemma_held_signal_is_silent(first: InputState, second: InputState)
    ensures
        first.skip_back && second.skip_back ==> second.spec_command_since(first) != Some(
            PlaybackCommand::SeekBack,
        ),
        first.skip_forward && second.skip_forward ==> second.spec_command_since(first) != Some(
            PlaybackCommand::SeekForward,
        ),
        first.pause_playback && second.pause_playback ==> second.spec_command_since(first)
            != Some(PlaybackCommand::TogglePause),
{
}

/// A command needs its signal to go back to released before it can fire
/// again: whenever a command fires, its signal was released one snapshot
/// earlier and is held now.
pub proof fn lemma_command_needs_rising_edge(previous: InputState, now: InputState)
    ensures
        now.spec_command_since(previous) == Some(PlaybackCommand::SeekBack) ==> rising(
            previous.skip_back,
            now.skip_back,
        ),
        now.spec_command_since(previous) == Some(PlaybackCommand::SeekForward) ==> rising(
            previous.skip_forward,
            now.skip_forward,
        ),
        now.spec_command_since(previous) == Some(PlaybackCommand::TogglePause) ==> rising(
            previous.pause_playback,
            now.pause_playback,
        ),
{
}

} // verus!
