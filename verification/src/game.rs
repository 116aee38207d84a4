//! The shared game instance as the session logic sees it.

use vstd::prelude::*;

verus! {

/// Where a game stands in its life cycle.
#[derive(Clone, Copy, Debug, PartialEq, Eq, Structural)]
pub enum GameStatus {
    /// The transport is open but the server has not described a game yet.
    Connecting,
    /// Players are gathering; the game has not started.
    Lobby,
    /// The game is running.
    Playing,
    /// The game is over.
    Finished,
}

impl GameStatus {
    /// A terminal status: the game takes no further input.
    pub open spec fn spec_finished(self) -> bool {
        self == GameStatus::Finished
    }

    /// Whether the game is over.
    pub fn finished(&self) -> (r: bool)
        ensures
            r == self.spec_finished(),
    {
        match self {
            GameStatus::Finished => true,
            _ => false,
        }
    }
}

/// Something the server tells a client about the game, live or recorded.
#[derive(Clone, Copy, Debug, PartialEq, Eq, Structural)]
pub enum GameEvent {
    /// The server admitted this client under the given connection.
    Welcome { connection_id: u64 },
    /// The server's authoritative picture of the game.
    Snapshot { status: GameStatus },
}

/// The game instance that exactly one path, live or replay, advances.
#[derive(Clone, Copy, Debug, PartialEq, Eq, Structural)]
pub struct GameState {
    /// Life-cycle status, as last reported by the server.
    pub status: GameStatus,
    /// The connection this client was admitted under.
    pub connection_id: u64,
    /// Simulated time applied to the game so far, in nanoseconds.
    pub clock: u64,
}

impl GameState {
    /// The state a replay starts from: a lobby at time zero.
    pub open spec fn spec_lobby() -> GameState {
        GameState { status: GameStatus::Lobby, connection_id: 0, clock: 0 }
    }

    /// The state a live session starts from, before the first snapshot.
    pub open spec fn spec_connecting(connection_id: u64) -> GameState {
        GameState { status: GameStatus::Connecting, connection_id, clock: 0 }
    }

    /// The state once `event` has been taken in. The clock is left alone.
    pub open spec fn after(self, event: GameEvent) -> GameState {
        match event {
            GameEvent::Welcome { connection_id } => GameState { connection_id, ..self },
            GameEvent::Snapshot { status } => GameState { status, ..self },
        }
    }

    /// The same state with its clock set to `clock`.
    pub open spec fn at(self, clock: u64) -> GameState {
        GameState { clock, ..self }
    }

    /// A lobby at time zero.
    pub fn lobby() -> (g: GameState)
        ensures
            g == GameState::spec_lobby(),
    {
        GameState { status: GameStatus::Lobby, connection_id: 0, clock: 0 }
    }

    /// A game that is still connecting.
    pub fn connecting(connection_id: u64) -> (g: GameState)
        ensures
            g == GameState::spec_connecting(connection_id),
    {
        GameState { status: GameStatus::Connecting, connection_id, clock: 0 }
    }

    /// Takes in one event.
    pub fn apply(&mut self, event: GameEvent)
        ensures
            *final(self) == old(self).after(event),
    {
        match event {
            GameEvent::Welcome { connection_id } => {
                self.connection_id = connection_id;
            },
            GameEvent::Snapshot { status } => {
                self.status = status;
            },
        }
    }
}

} // verus!
