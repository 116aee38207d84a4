//! The controller as the page drives it: the session together with the
//! wall-clock instant of the last frame.

use vstd::prelude::*;
use vstd::string::StringSliceAdditionalSpecFns;
use crate::clock::{nanos_between, now, spec_nanos_between};
use crate::game::GameEvent;
use crate::input::InputState;
use crate::link::{
    link_update, read_time_offset, session_mode, spec_link_update, spec_session_mode,
    spec_time_offset, spec_time_query, time_query,
};
use crate::message::{get_recorded_game, spec_recorded_game, DecodeError, ServerToClientMessage};
use crate::playback::PlaybackError;
use crate::recording::{RecordedGame, Timeline};
use crate::session::{FrameOutcome, InputOutcome, Session, SessionController};

verus! {

/// The key under which the latest recording is kept in storage.
pub const LATEST_GAME_KEY: &'static str = "latest game";

/// A player's colour.
#[derive(Clone, Copy, Debug, PartialEq, Eq, Structural)]
pub struct Color {
    pub red: u8,
    pub green: u8,
    pub blue: u8,
}

/// What a new live session asks of the server.
#[derive(Clone, Debug, PartialEq, Eq)]
pub enum JoinRequest {
    /// Join as a player under `name`, in `preferred_color` if it is free.
    JoinAsPlayer { name: String, preferred_color: Color },
    /// Join to watch.
    JoinAsSpectator,
}

/// Why no session could be started.
#[derive(Clone, Debug, PartialEq, Eq)]
pub enum StartError {
    /// A replay was asked for, and storage holds no recording.
    NoSavedGame,
    /// A replay was asked for, and what storage holds is no recording.
    Decode(DecodeError),
    /// The recording does not allow a seek to the offset asked for.
    Playback(PlaybackError),
}

/// The join request of a live session: to watch where `spectate` is set,
/// else to play under `name` in the colour picked.
pub open spec fn spec_join_request(spectate: bool, name: String, preferred_color: Color)
    -> JoinRequest {
    if spectate {
        JoinRequest::JoinAsSpectator
    } else {
        JoinRequest::JoinAsPlayer { name, preferred_color }
    }
}

/// The replaying session that a page opens on `timeline`. Without an offset
/// it starts at zero and runs. With one it seeks there and waits, paused;
/// where the seek fails there is no session.
pub open spec fn spec_opened(timeline: Timeline, offset: Option<int>) -> Result<
    Session,
    PlaybackError,
> {
    match offset {
        None => Ok(Session::replaying(timeline)),
        Some(target) => {
            let sought = Session::replaying(timeline).after_skip(target);
            match sought.1 {
                Ok(_) => Ok(sought.0.after_toggle()),
                Err(e) => Err(e),
            }
        },
    }
}

/// A seek target as a number.
pub open spec fn spec_target(offset: Option<i64>) -> Option<int> {
    match offset {
        Some(target) => Some(target as int),
        None => None,
    }
}

/// The session that a page starts, and the join request to send where the
/// session is live.
///
/// `search` is the address's query string, `stored` what storage held under
/// the recording's key after decoding, `time` the address's time parameter.
/// Without the replay marker the session is live and connecting. With it,
/// storage must hold a recording, which is then opened at the offset that
/// `time` gives, if it gives one.
pub open spec fn spec_make_game(
    name: String,
    search: Seq<u8>,
    preferred_color: Color,
    stored: Option<Result<ServerToClientMessage, String>>,
    time: Option<Seq<u8>>,
) -> Result<(Session, Option<JoinRequest>), StartError> {
    let mode = spec_session_mode(search);
    if !mode.playback {
        Ok((Session::connecting(), Some(spec_join_request(mode.spectate, name, preferred_color))))
    } else {
        match spec_recorded_game(stored) {
            Err(e) => Err(StartError::Decode(e)),
            Ok(None) => Err(StartError::NoSavedGame),
            Ok(Some(recording)) => match spec_opened(
                recording@,
                match time {
                    Some(text) => spec_time_offset(text),
                    None => None,
                },
            ) {
                Ok(session) => Ok((session, None)),
                Err(e) => Err(StartError::Playback(e)),
            },
        }
    }
}

/// What a session writes into the address, given the query string that the
/// address holds now: where it replays, the replay marker with the cursor in
/// whole seconds, unless the address says so already; otherwise nothing.
pub open spec fn spec_address_update(session: Session, current: Seq<char>) -> Option<Seq<char>> {
    match session.cursor() {
        Some(cursor) => spec_link_update(current, spec_time_query(cursor)),
        None => None,
    }
}

/// The session controller together with the instant of the last frame, from
/// which the next frame's elapsed time is measured.
pub struct GameWrapper {
    previous_frame_time: instant::Instant,
    session: SessionController,
}

impl View for GameWrapper {
    type V = Session;

    closed spec fn view(&self) -> Session {
        self.session@
    }
}

impl GameWrapper {
    /// The instant from which the next frame's elapsed time is measured.
    pub closed spec fn baseline(&self) -> instant::Instant {
        self.previous_frame_time
    }

    /// A live session that waits for the server, its first frame measured
    /// from `this_instant`.
    pub fn connecting_at(this_instant: instant::Instant) -> (w: GameWrapper)
        ensures
            w@ == Session::connecting(),
            w@.wf(),
            w.baseline() == this_instant,
    {
        GameWrapper { previous_frame_time: this_instant, session: SessionController::connecting() }
    }

    /// A live session that waits for the server, its first frame measured
    /// from now.
    pub fn connecting() -> (w: GameWrapper)
        ensures
            w@ == Session::connecting(),
            w@.wf(),
    {
        GameWrapper::connecting_at(now())
    }

    /// A replay of `recording`, its first frame measured from
    /// `this_instant`. Without an offset it starts at zero and runs. With
    /// one it seeks there, clamped into the recording, and waits, paused.
    pub fn replaying_at(
        recording: RecordedGame,
        offset: Option<i64>,
        this_instant: instant::Instant,
    ) -> (r: Result<GameWrapper, PlaybackError>)
        ensures
            match r {
                Ok(w) => w@.wf() && w.baseline() == this_instant && spec_opened(
                    recording@,
                    spec_target(offset),
                ) == Ok::<Session, PlaybackError>(w@),
                Err(e) => spec_opened(recording@, spec_target(offset)) == Err::<
                    Session,
                    PlaybackError,
                >(e),
            },
    {
        let mut session = SessionController::replaying(recording);
        if let Some(target) = offset {
            session.skip_to(target)?;
            session.toggle_pause();
        }
        Ok(GameWrapper { previous_frame_time: this_instant, session })
    }

    /// A replay of `recording`, its first frame measured from now. See
    /// [`GameWrapper::replaying_at`].
    pub fn replaying(recording: RecordedGame, offset: Option<i64>) -> (r: Result<
        GameWrapper,
        PlaybackError,
    >)
        ensures
            match r {
                Ok(w) => w@.wf() && spec_opened(recording@, spec_target(offset)) == Ok::<
                    Session,
                    PlaybackError,
                >(w@),
                Err(e) => spec_opened(recording@, spec_target(offset)) == Err::<
                    Session,
                    PlaybackError,
                >(e),
            },
    {
        GameWrapper::replaying_at(recording, offset, now())
    }

    /// The session.
    pub fn session(&self) -> (s: &SessionController)
        ensures
            s@ == self@,
    {
        &self.session
    }

    /// Takes in an event from the server.
    pub fn receive(&mut self, event: GameEvent)
        ensures
            final(self)@.wf(),
            final(self)@ == old(self)@.after_event(event),
            final(self).baseline() == old(self).baseline(),
    {
        self.session.receive(event);
    }

    /// Takes `input` as the next input snapshot, at the instant
    /// `this_instant`.
    ///
    /// Where this resumes a paused replay, the next frame's time is measured
    /// from `this_instant` on, so that the time spent paused is not played
    /// back in one leap. Otherwise the baseline stays as it is.
    pub fn set_inputs_at(&mut self, input: InputState, this_instant: instant::Instant) -> (r:
        Result<InputOutcome, PlaybackError>)
        ensures
            final(self)@.wf(),
            (final(self)@, r) == old(self)@.after_input(input),
            final(self).baseline() == if r is Ok && r->Ok_0.resumed {
                this_instant
            } else {
                old(self).baseline()
            },
    {
        let outcome = self.session.handle_input(input)?;
        if outcome.resumed {
            self.previous_frame_time = this_instant;
        }
        Ok(outcome)
    }

    /// Takes the signals that are held right now as the next input
    /// snapshot.
    ///
    /// Where this resumes a paused replay, the next frame's time is measured
    /// from now on; otherwise the baseline stays as it is. See
    /// [`GameWrapper::set_inputs_at`].
    pub fn set_inputs(
        &mut self,
        up: bool,
        down: bool,
        left: bool,
        right: bool,
        kill: bool,
        report: bool,
        activate: bool,
        play: bool,
        skip_back: bool,
        skip_forward: bool,
        pause_playback: bool,
    ) -> (r: Result<InputOutcome, PlaybackError>)
        ensures
            final(self)@.wf(),
            (final(self)@, r) == old(self)@.after_input(
                InputState {
                    up,
                    down,
                    left,
                    right,
                    kill,
                    report,
                    activate,
                    play,
                    skip_back,
                    skip_forward,
                    pause_playback,
                },
            ),
            !(r is Ok && r->Ok_0.resumed) ==> final(self).baseline() == old(self).baseline(),
    {
        let input = InputState {
            up,
            down,
            left,
            right,
            kill,
            report,
            activate,
            play,
            skip_back,
            skip_forward,
            pause_playback,
        };
        self.set_inputs_at(input, now())
    }

    /// Runs the frame that begins at `this_frame`: hands the time since the
    /// last frame began to whichever path is active, and measures the next
    /// frame from `this_frame` on.
    ///
    /// The baseline moves whether or not anything advances, so that time
    /// spent idle or paused never counts towards a later frame. What the
    /// frame does with the time is what
    /// [`SessionController::simulate_frame`] does with it.
    pub fn simulate_at(&mut self, this_frame: instant::Instant) -> (r: Result<
        FrameOutcome,
        PlaybackError,
    >)
        ensures
            final(self)@.wf(),
            final(self).baseline() == this_frame,
            (final(self)@, r) == old(self)@.after_frame(
                spec_nanos_between(old(self).baseline(), this_frame),
            ),
    {
        let elapsed = nanos_between(&self.previous_frame_time, &this_frame);
        self.previous_frame_time = this_frame;
        self.session.simulate_frame(elapsed)
    }

    /// Runs the frame that begins now. See [`GameWrapper::simulate_at`]:
    /// the time handed on is the time between the old baseline and the new.
    pub fn simulate(&mut self) -> (r: Result<FrameOutcome, PlaybackError>)
        ensures
            final(self)@.wf(),
            (final(self)@, r) == old(self)@.after_frame(
                spec_nanos_between(old(self).baseline(), final(self).baseline()),
            ),
    {
        self.simulate_at(now())
    }

    /// What to write into the address so that it shares the replay where it
    /// stands: the replay marker with the cursor in whole seconds, unless
    /// `current_search`, the query string that the address holds now, says
    /// so already. A session that is not replaying writes nothing.
    pub fn write_time_offset_into_url(&self, current_search: &str) -> (update: Option<String>)
        ensures
            match update {
                Some(text) => spec_address_update(self@, current_search@) == Some(text@),
                None => spec_address_update(self@, current_search@) is None,
            },
    {
        match self.session.current_time() {
            None => None,
            Some(cursor) => link_update(current_search, time_query(cursor)),
        }
    }
}

/// The join request of a live session.
pub fn join_request(spectate: bool, name: String, preferred_color: Color) -> (join: JoinRequest)
    ensures
        join == spec_join_request(spectate, name, preferred_color),
{
    if spectate {
        JoinRequest::JoinAsSpectator
    } else {
        JoinRequest::JoinAsPlayer { name, preferred_color }
    }
}

/// The query string and the time parameter as `spec_make_game` takes them.
pub open spec fn spec_bytes_of(text: Option<&str>) -> Option<Seq<u8>> {
    match text {
        Some(text) => Some(text.spec_bytes()),
        None => None,
    }
}

/// Starts the session that the page's address asks for, its first frame
/// measured from `this_instant`.
///
/// `search` is the address's query string. `preferred_color` is the colour
/// picked for a player. `stored` is what storage held under
/// [`LATEST_GAME_KEY`], decoded, and `time` is the address's time parameter;
/// both matter only where the address asks for a replay. A live session
/// comes with the join request to send.
pub fn make_game_at(
    name: String,
    search: &str,
    preferred_color: Color,
    stored: Option<Result<ServerToClientMessage, String>>,
    time: Option<&str>,
    this_instant: instant::Instant,
) -> (r: Result<(GameWrapper, Option<JoinRequest>), StartError>)
    ensures
        match r {
            Ok((wrapper, join)) => wrapper@.wf() && wrapper.baseline() == this_instant
                && spec_make_game(
                name,
                search.spec_bytes(),
                preferred_color,
                stored,
                spec_bytes_of(time),
            ) == Ok::<(Session, Option<JoinRequest>), StartError>((wrapper@, join)),
            Err(e) => spec_make_game(
                name,
                search.spec_bytes(),
                preferred_color,
                stored,
                spec_bytes_of(time),
            ) == Err::<(Session, Option<JoinRequest>), StartError>(e),
        },
{
    let mode = session_mode(search);
    if !mode.playback {
        let join = join_request(mode.spectate, name, preferred_color);
        return Ok((GameWrapper::connecting_at(this_instant), Some(join)));
    }
    let recording = match get_recorded_game(stored) {
        Err(e) => {
            return Err(StartError::Decode(e));
        },
        Ok(None) => {
            return Err(StartError::NoSavedGame);
        },
        Ok(Some(recording)) => recording,
    };
    match GameWrapper::replaying_at(recording, read_time_offset(time), this_instant) {
        Ok(wrapper) => Ok((wrapper, None)),
        Err(e) => Err(StartError::Playback(e)),
    }
}

/// Starts the session that the page's address asks for, its first frame
/// measured from now. See [`make_game_at`].
pub fn make_game(
    name: String,
    search: &str,
    preferred_color: Color,
    stored: Option<Result<ServerToClientMessage, String>>,
    time: Option<&str>,
) -> (r: Result<(GameWrapper, Option<JoinRequest>), StartError>)
    ensures
        match r {
            Ok((wrapper, join)) => wrapper@.wf() && spec_make_game(
                name,
                search.spec_bytes(),
                preferred_color,
                stored,
                spec_bytes_of(time),
            ) == Ok::<(Session, Option<JoinRequest>), StartError>((wrapper@, join)),
            Err(e) => spec_make_game(
                name,
                search.spec_bytes(),
                preferred_color,
                stored,
                spec_bytes_of(time),
            ) == Err::<(Session, Option<JoinRequest>), StartError>(e),
        },
{
    make_game_at(name, search, preferred_color, stored, time, now())
}

} // verus!
