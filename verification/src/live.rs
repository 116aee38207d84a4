//! A live, networked session: one game instance driven by what the server
//! sends and by local input.

use vstd::prelude::*;
use crate::game::{GameEvent, GameState, GameStatus};
use crate::input::InputState;

verus! {

/// Why a live session turned an input down.
#[derive(Clone, Copy, Debug, PartialEq, Eq, Structural)]
pub enum InputRejected {
    /// The session has not joined a game yet.
    NotJoined,
}

/// A live session.
#[derive(Clone, Copy, Debug, PartialEq, Eq, Structural)]
pub struct LiveSession {
    /// The game instance.
    pub game: GameState,
    /// The continuous input stored for the next simulation tick.
    pub inputs: InputState,
}

impl LiveSession {
    /// A session that has been admitted but has not seen a game yet.
    pub open spec fn spec_new(connection_id: u64) -> LiveSession {
        LiveSession {
            game: GameState::spec_connecting(connection_id),
            inputs: InputState::spec_released(),
        }
    }

    /// The session has seen a game: its status is past `Connecting`.
    pub open spec fn spec_joined(self) -> bool {
        self.game.status != GameStatus::Connecting
    }

    /// The session once the server's `event` has been taken in.
    pub open spec fn received(self, event: GameEvent) -> LiveSession {
        LiveSession { game: self.game.after(event), ..self }
    }

    /// The session once `snapshot` has been offered as input, and whether it
    /// was taken. Only a joined session takes input, and it keeps only the
    /// continuous signals.
    pub open spec fn offered(self, snapshot: InputState) -> (LiveSession, Result<
        (),
        InputRejected,
    >) {
        if self.spec_joined() {
            (LiveSession { inputs: snapshot.spec_continuous(), ..self }, Ok(()))
        } else {
            (self, Err(InputRejected::NotJoined))
        }
    }

    /// The session after a tick of `elapsed` nanoseconds, and whether the
    /// game progressed. Only a game that is being played progresses; its
    /// clock then moves on by the time that passed, stopping at the top of
    /// its range.
    pub open spec fn ticked(self, elapsed: u64) -> (LiveSession, bool) {
        if self.game.status == GameStatus::Playing {
            (
                LiveSession {
                    game: self.game.at(
                        if self.game.clock + elapsed > u64::MAX {
                            u64::MAX
                        } else {
                            (self.game.clock + elapsed) as u64
                        },
                    ),
                    ..self
                },
                true,
            )
        } else {
            (self, false)
        }
    }

    /// Starts a session under the connection the server gave.
    pub fn new(connection_id: u64) -> (s: LiveSession)
        ensures
            s == LiveSession::spec_new(connection_id),
    {
        LiveSession { game: GameState::connecting(connection_id), inputs: InputState::released() }
    }

    /// Whether the session has joined a game.
    pub fn joined(&self) -> (b: bool)
        ensures
            b == self.spec_joined(),
    {
        match self.game.status {
            GameStatus::Connecting => false,
            _ => true,
        }
    }

    /// Takes in an event from the server.
    pub fn receive(&mut self, event: GameEvent)
        ensures
            *final(self) == old(self).received(event),
    {
        self.game.apply(event);
    }

    /// Stores the continuous part of `snapshot` for the next tick. Rejects
    /// it, changing nothing, while the session has not joined a game.
    pub fn take_input(&mut self, snapshot: InputState) -> (r: Result<(), InputRejected>)
        ensures
            (*final(self), r) == old(self).offered(snapshot),
    {
        if !self.joined() {
            return Err(InputRejected::NotJoined);
        }
        self.inputs = snapshot.continuous();
        Ok(())
    }

    /// Advances the game by `elapsed` nanoseconds and says whether it
    /// progressed. A game that is connecting, waiting in the lobby or over is
    /// left untouched.
    pub fn simulate(&mut self, elapsed: u64) -> (advanced: bool)
        ensures
            (*final(self), advanced) == old(self).ticked(elapsed),
    {
        match self.game.status {
            GameStatus::Playing => {
                self.game.clock = self.game.clock.saturating_add(elapsed);
                true
            },
            _ => false,
        }
    }
}

/// A session that is connecting or whose game is over is never changed by a
/// tick, and reports no progress.
pub proof fn lemma_tick_spares_idle_game(session: LiveSession, elapsed: u64)
    requires
        session.game.status == GameStatus::Connecting || session.game.status.spec_finished(),
    ensures
        session.ticked(elapsed) == (session, false),
{
}

} // verus!
