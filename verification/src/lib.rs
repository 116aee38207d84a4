//! Session control for a real-time multiplayer game client.
//!
//! A session is either live (driven by the network and local input) or a
//! replay of a recorded timeline that can be paused and seeked. This crate
//! holds the rules of both and proves them with Verus; rendering, transport
//! and storage stay with the caller, which passes plain values in and out.

pub mod game;
pub mod input;
pub mod recording;
pub mod playback;
pub mod live;
pub mod message;
pub mod session;
pub mod clock;
pub mod link;
pub mod wrapper;

pub use game::{GameEvent, GameState, GameStatus};
pub use input::{InputState, PlaybackCommand};
pub use link::{parse_time_offset, read_time_offset, session_mode, time_query, SessionMode};
pub use live::{InputRejected, LiveSession};
pub use message::{get_recorded_game, DecodeError, MessageKind, ServerToClientMessage};
pub use playback::{PlaybackController, PlaybackError};
pub use recording::{RecordedEntry, RecordedGame};
pub use session::{FrameOutcome, InputOutcome, SessionController, SEEK_STEP};
pub use wrapper::{
    make_game, make_game_at, Color, GameWrapper, JoinRequest, StartError, LATEST_GAME_KEY,
};
