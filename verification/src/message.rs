//! The envelope in which the server's messages travel and are stored, and
//! the check that a stored envelope holds a recording.

use vstd::prelude::*;
use crate::game::{GameEvent, GameStatus};
use crate::recording::RecordedGame;

verus! {

/// The kinds of message an envelope can hold.
#[derive(Clone, Copy, Debug, PartialEq, Eq, Structural)]
pub enum MessageKind {
    Welcome,
    Snapshot,
    Replay,
}

impl MessageKind {
    /// The kind's name, as shown to people.
    pub open spec fn spec_name(self) -> Seq<char> {
        match self {
            MessageKind::Welcome => "Welcome"@,
            MessageKind::Snapshot => "Snapshot"@,
            MessageKind::Replay => "Replay"@,
        }
    }

    /// The kind's name, as shown to people.
    pub fn name(&self) -> (s: &'static str)
        ensures
            s@ == self.spec_name(),
    {
        match self {
            MessageKind::Welcome => "Welcome",
            MessageKind::Snapshot => "Snapshot",
            MessageKind::Replay => "Replay",
        }
    }
}

/// A message from the server, as delivered over the network or kept in
/// storage.
#[derive(Clone, Debug, PartialEq, Eq)]
pub enum ServerToClientMessage {
    /// The server admitted this client.
    Welcome { connection_id: u64 },
    /// The server's picture of the game.
    Snapshot { status: GameStatus },
    /// A finished session, recorded for replay.
    Replay(RecordedGame),
}

impl ServerToClientMessage {
    /// Which kind of message this is.
    pub open spec fn spec_kind(self) -> MessageKind {
        match self {
            ServerToClientMessage::Welcome { .. } => MessageKind::Welcome,
            ServerToClientMessage::Snapshot { .. } => MessageKind::Snapshot,
            ServerToClientMessage::Replay(_) => MessageKind::Replay,
        }
    }

    /// The game event this message carries, if it carries one. A recording
    /// is not an event.
    pub open spec fn spec_event(self) -> Option<GameEvent> {
        match self {
            ServerToClientMessage::Welcome { connection_id } => Some(
                GameEvent::Welcome { connection_id },
            ),
            ServerToClientMessage::Snapshot { status } => Some(GameEvent::Snapshot { status }),
            ServerToClientMessage::Replay(_) => None,
        }
    }

    /// Which kind of message this is.
    pub fn kind(&self) -> (k: MessageKind)
        ensures
            k == self.spec_kind(),
    {
        match self {
            ServerToClientMessage::Welcome { .. } => MessageKind::Welcome,
            ServerToClientMessage::Snapshot { .. } => MessageKind::Snapshot,
            ServerToClientMessage::Replay(_) => MessageKind::Replay,
        }
    }

    /// The game event this message carries, if it carries one.
    pub fn event(&self) -> (e: Option<GameEvent>)
        ensures
            e == self.spec_event(),
    {
        match self {
            ServerToClientMessage::Welcome { connection_id } => Some(
                GameEvent::Welcome { connection_id: *connection_id },
            ),
            ServerToClientMessage::Snapshot { status } => Some(
                GameEvent::Snapshot { status: *status },
            ),
            ServerToClientMessage::Replay(_) => None,
        }
    }
}

/// Why a stored or delivered envelope gave no recording.
#[derive(Clone, Debug, PartialEq, Eq)]
pub enum DecodeError {
    /// The envelope could not be read at all; `detail` holds what was
    /// stored and what the decoder said of it.
    Malformed { detail: String },
    /// The envelope was read, but holds a message of kind `found` where a
    /// recording was expected.
    UnexpectedKind { found: MessageKind },
}

impl DecodeError {
    /// The error in words.
    pub open spec fn spec_message(self) -> Seq<char> {
        match self {
            DecodeError::Malformed { detail } =>
                "Unable to decode game recording from localStorage "@ + detail@,
            DecodeError::UnexpectedKind { found } =>
                "Could not decode recorded game from local storage. Expected a Replay but found a "@
                    + found.spec_name(),
        }
    }

    /// The error in words.
    pub fn message(&self) -> (s: String)
        ensures
            s@ == self.spec_message(),
    {
        match self {
            DecodeError::Malformed { detail } => {
                String::from_str("Unable to decode game recording from localStorage ").concat(
                    detail.as_str(),
                )
            },
            DecodeError::UnexpectedKind { found } => {
                String::from_str(
                    "Could not decode recorded game from local storage. \
                     Expected a Replay but found a ",
                ).concat(found.name())
            },
        }
    }
}

/// What a look into storage gave, once whatever was there had been decoded:
/// nothing stored, an envelope that could not be read (with the decoder's
/// words), or an envelope.
pub open spec fn spec_recorded_game(
    stored: Option<Result<ServerToClientMessage, String>>,
) -> Result<Option<RecordedGame>, DecodeError> {
    match stored {
        None => Ok(None),
        Some(Err(detail)) => Err(DecodeError::Malformed { detail }),
        Some(Ok(ServerToClientMessage::Replay(recording))) => Ok(Some(recording)),
        Some(Ok(other)) => Err(DecodeError::UnexpectedKind { found: other.spec_kind() }),
    }
}

/// Takes the recording out of what storage held.
///
/// An empty slot gives `Ok(None)`. An envelope that holds a recording gives
/// that recording. An envelope of any other kind is an error that names the
/// kind found, and so is an envelope that could not be read.
pub fn get_recorded_game(stored: Option<Result<ServerToClientMessage, String>>) -> (r: Result<
    Option<RecordedGame>,
    DecodeError,
>)
    ensures
        r == spec_recorded_game(stored),
{
    match stored {
        None => Ok(None),
        Some(Err(detail)) => Err(DecodeError::Malformed { detail }),
        Some(Ok(message)) => {
            let found = message.kind();
            match message {
                ServerToClientMessage::Replay(recording) => Ok(Some(recording)),
                _ => Err(DecodeError::UnexpectedKind { found }),
            }
        },
    }
}

} // verus!
