//! The session controller: one game instance, advanced each frame by exactly
//! one of two paths, live play or replay, chosen when the session is made.

use vstd::prelude::*;
use crate::game::{GameEvent, GameState};
use crate::input::{InputState, PlaybackCommand};
use crate::live::LiveSession;
use crate::playback::{
    clamp_offset, lemma_simulate_moves_forward, lemma_skip_back_and_return,
    lemma_skip_is_idempotent, lemma_skip_lands_on_target, lemma_skip_shows_timeline, Playback,
    PlaybackController, PlaybackError, Step,
};
use crate::recording::{RecordedGame, Timeline};

verus! {

/// How far one seek command moves the cursor, in nanoseconds.
pub const SEEK_STEP: u64 = 5_000_000_000;

/// What the controller is doing. A session starts out connecting or
/// replaying; a connecting session becomes live once the server admits it,
/// and nothing else ever changes the mode.
pub enum Mode {
    /// Waiting for the server. There is no game instance yet.
    Connecting,
    /// Live play.
    Live(LiveSession),
    /// Replay of a recording into `game`.
    Replaying { playback: Playback, game: GameState },
}

/// The mathematical state of a [`SessionController`].
pub struct Session {
    pub mode: Mode,
    /// The snapshot that the next one is compared with.
    pub inputs: InputState,
}

/// What an input snapshot led to.
#[derive(Clone, Copy, Debug, PartialEq, Eq, Structural)]
pub struct InputOutcome {
    /// The replay command that fired, if one did.
    pub command: Option<PlaybackCommand>,
    /// The replay went from paused to running: time spent paused must not
    /// count towards the next frame.
    pub resumed: bool,
    /// The live session took the snapshot as its input for the next tick.
    pub forwarded: bool,
}

/// What a frame tick led to.
#[derive(Clone, Copy, Debug, PartialEq, Eq, Structural)]
pub enum FrameOutcome {
    /// Nothing moved: the session is connecting, or the replay is paused.
    Idle,
    /// The replay moved on; what is shown of the cursor is now due a refresh.
    Replayed,
    /// The live session ran a tick; `advanced` says whether the game
    /// progressed.
    Live { advanced: bool },
}

impl InputOutcome {
    /// The outcome of a snapshot that led to nothing.
    pub open spec fn spec_ignored() -> InputOutcome {
        InputOutcome { command: None, resumed: false, forwarded: false }
    }

    /// The outcome of a snapshot that led to nothing.
    pub fn ignored() -> (o: InputOutcome)
        ensures
            o == InputOutcome::spec_ignored(),
    {
        InputOutcome { command: None, resumed: false, forwarded: false }
    }
}

impl FrameOutcome {
    /// Whether the frame changed what there is to draw.
    pub open spec fn spec_progressed(self) -> bool {
        match self {
            FrameOutcome::Idle => false,
            FrameOutcome::Replayed => true,
            FrameOutcome::Live { advanced } => advanced,
        }
    }

    /// Whether the frame changed what there is to draw.
    pub fn progressed(&self) -> (b: bool)
        ensures
            b == self.spec_progressed(),
    {
        match self {
            FrameOutcome::Idle => false,
            FrameOutcome::Replayed => true,
            FrameOutcome::Live { advanced } => *advanced,
        }
    }
}

impl Session {
    /// In a replaying session the game is what the replay shows.
    pub open spec fn wf(self) -> bool {
        match self.mode {
            Mode::Replaying { playback, game } => playback.wf() && playback.tracks(game),
            _ => true,
        }
    }

    /// A session that waits for the server.
    pub open spec fn connecting() -> Session {
        Session { mode: Mode::Connecting, inputs: InputState::spec_released() }
    }

    /// A session that replays `timeline`, at offset zero and running, its
    /// game showing the recording at offset zero.
    pub open spec fn replaying(timeline: Timeline) -> Session {
        Session {
            mode: Mode::Replaying {
                playback: Playback {
                    timeline,
                    cursor: 0,
                    applied: timeline.reach(0, 0),
                    paused: false,
                },
                game: timeline.state_at(0),
            },
            inputs: InputState::spec_released(),
        }
    }

    /// The session once the server's `event` has arrived. A welcome turns a
    /// connecting session live; a live session takes the event in; a replay
    /// is deaf to the network.
    pub open spec fn after_event(self, event: GameEvent) -> Session {
        match self.mode {
            Mode::Connecting => match event {
                GameEvent::Welcome { connection_id } => Session {
                    mode: Mode::Live(LiveSession::spec_new(connection_id)),
                    ..self
                },
                _ => self,
            },
            Mode::Live(live) => Session { mode: Mode::Live(live.received(event)), ..self },
            Mode::Replaying { .. } => self,
        }
    }

    /// The session after a seek to `target`, and how the seek went. Only a
    /// replay can seek; elsewhere nothing happens.
    pub open spec fn after_skip(self, target: int) -> (Session, Result<(), PlaybackError>) {
        match self.mode {
            Mode::Replaying { playback, game } => {
                let step = playback.skipped(game, target);
                (
                    Session {
                        mode: Mode::Replaying { playback: step.playback, game: step.game },
                        ..self
                    },
                    step.result,
                )
            },
            _ => (self, Ok(())),
        }
    }

    /// The session with its replay's pause flag flipped. Only a replay can
    /// pause.
    pub open spec fn after_toggle(self) -> Session {
        match self.mode {
            Mode::Replaying { playback, game } => Session {
                mode: Mode::Replaying { playback: playback.toggled(), game },
                ..self
            },
            _ => self,
        }
    }

    /// What a replay does on `command`.
    pub open spec fn commanded(
        playback: Playback,
        game: GameState,
        command: Option<PlaybackCommand>,
    ) -> Step {
        match command {
            Some(PlaybackCommand::SeekBack) => playback.skipped(game, playback.cursor - SEEK_STEP),
            Some(PlaybackCommand::SeekForward) => playback.skipped(
                game,
                playback.cursor + SEEK_STEP,
            ),
            Some(PlaybackCommand::TogglePause) => Step {
                playback: playback.toggled(),
                game,
                result: Ok(()),
            },
            None => Step { playback, game, result: Ok(()) },
        }
    }

    /// The session after the input snapshot `snapshot`, and what came of it.
    ///
    /// A connecting session ignores input altogether. Otherwise the snapshot
    /// becomes the one that the next is compared with, whatever else
    /// happens. A replay obeys the command that fires, if one does; a failed
    /// seek leaves replay and game as they were. A live session whose game is
    /// over drops the snapshot; any other live session is offered it, and a
    /// rejection is passed over in silence.
    pub open spec fn after_input(self, snapshot: InputState) -> (Session, Result<
        InputOutcome,
        PlaybackError,
    >) {
        match self.mode {
            Mode::Connecting => (self, Ok(InputOutcome::spec_ignored())),
            Mode::Replaying { playback, game } => {
                let command = snapshot.spec_command_since(self.inputs);
                let step = Session::commanded(playback, game, command);
                (
                    Session {
                        mode: Mode::Replaying { playback: step.playback, game: step.game },
                        inputs: snapshot,
                    },
                    match step.result {
                        Ok(_) => Ok(
                            InputOutcome {
                                command,
                                resumed: command == Some(PlaybackCommand::TogglePause)
                                    && !step.playback.paused,
                                forwarded: false,
                            },
                        ),
                        Err(e) => Err(e),
                    },
                )
            },
            Mode::Live(live) => {
                if live.game.status.spec_finished() {
                    (Session { inputs: snapshot, ..self }, Ok(InputOutcome::spec_ignored()))
                } else {
                    let offered = live.offered(snapshot);
                    (
                        Session { mode: Mode::Live(offered.0), inputs: snapshot },
                        Ok(
                            InputOutcome {
                                command: None,
                                resumed: false,
                                forwarded: offered.1 is Ok,
                            },
                        ),
                    )
                }
            },
        }
    }

    /// The session after a frame tick of `elapsed` nanoseconds, and what
    /// came of it.
    ///
    /// A connecting session and a paused replay stay as they are. A running
    /// replay moves on by the time that passed; where that fails, nothing
    /// changes. A live session that has not seen a game yet is left alone;
    /// any other live session runs one tick.
    pub open spec fn after_frame(self, elapsed: u64) -> (Session, Result<
        FrameOutcome,
        PlaybackError,
    >) {
        match self.mode {
            Mode::Connecting => (self, Ok(FrameOutcome::Idle)),
            Mode::Replaying { playback, game } => {
                if playback.paused {
                    (self, Ok(FrameOutcome::Idle))
                } else {
                    let step = playback.simulated(game, elapsed, false);
                    (
                        Session {
                            mode: Mode::Replaying { playback: step.playback, game: step.game },
                            ..self
                        },
                        match step.result {
                            Ok(_) => Ok(FrameOutcome::Replayed),
                            Err(e) => Err(e),
                        },
                    )
                }
            },
            Mode::Live(live) => {
                if !live.spec_joined() {
                    (self, Ok(FrameOutcome::Idle))
                } else {
                    let ticked = live.ticked(elapsed);
                    (
                        Session { mode: Mode::Live(ticked.0), ..self },
                        Ok(FrameOutcome::Live { advanced: ticked.1 }),
                    )
                }
            },
        }
    }

    /// The session after one frame tick for each element of `ticks`, in
    /// order.
    pub open spec fn after_frames(self, ticks: Seq<u64>) -> Session
        decreases ticks.len(),
    {
        if ticks.len() == 0 {
            self
        } else {
            self.after_frames(ticks.drop_last()).after_frame(ticks.last()).0
        }
    }

    /// Whether the session replays a recording and the replay is paused.
    pub open spec fn paused(self) -> bool {
        match self.mode {
            Mode::Replaying { playback, .. } => playback.paused,
            _ => false,
        }
    }

    /// The replay cursor, where the session replays a recording.
    pub open spec fn cursor(self) -> Option<u64> {
        match self.mode {
            Mode::Replaying { playback, .. } => Some(playback.cursor),
            _ => None,
        }
    }

    /// The length of the recording, where the session replays one.
    pub open spec fn duration(self) -> Option<u64> {
        match self.mode {
            Mode::Replaying { playback, .. } => Some(playback.timeline.duration),
            _ => None,
        }
    }

    /// The game instance, once there is one.
    pub open spec fn game(self) -> Option<GameState> {
        match self.mode {
            Mode::Connecting => None,
            Mode::Live(live) => Some(live.game),
            Mode::Replaying { game, .. } => Some(game),
        }
    }

    /// Two sessions are in the same mode, and where they replay, they replay
    /// the same recording.
    pub open spec fn same_mode(self, other: Session) -> bool {
        match self.mode {
            Mode::Connecting => other.mode is Connecting,
            Mode::Live(_) => other.mode is Live,
            Mode::Replaying { playback, .. } => other.mode is Replaying
                && other.mode->playback.timeline == playback.timeline,
        }
    }
}

/// The entries due at offset zero are always in order: a replay can always
/// be opened.
pub proof fn lemma_opening_is_sound(timeline: Timeline)
    ensures
        timeline.sound(0, timeline.reach(0, 0)),
        Session::replaying(timeline).wf(),
        Playback::start(timeline).skipped(GameState::spec_lobby(), 0) == (Step {
            playback: Session::replaying(timeline).mode->playback,
            game: timeline.state_at(0),
            result: Ok(()),
        }),
{
    // Whatever is due at offset zero is stamped zero, so no entry among
    // them is stamped earlier than the one before it.
    timeline.lemma_reach(0, 0);
    assert forall|i: int| 0 <= i < timeline.reach(0, 0) implies timeline.in_order(i) by {
        if i > 0 {
            assert(timeline.entries[i - 1].since_start <= 0);
        }
    }
    timeline.lemma_sound_from_order(0, timeline.reach(0, 0));
}

/// The mode is fixed: no input, frame, seek or pause toggle ever changes it,
/// and of the server's events only a welcome does, which turns a connecting
/// session live. A replay stays a replay of the same recording, a live
/// session stays live, and each operation keeps the session well-formed.
pub proof fn lemma_mode_is_fixed(
    session: Session,
    snapshot: InputState,
    elapsed: u64,
    target: int,
    event: GameEvent,
)
    requires
        session.wf(),
    ensures
        session.same_mode(session.after_input(snapshot).0),
        session.same_mode(session.after_frame(elapsed).0),
        session.same_mode(session.after_skip(target).0),
        session.same_mode(session.after_toggle()),
        !(session.mode is Connecting) ==> session.same_mode(session.after_event(event)),
        session.mode is Connecting ==> (session.after_event(event).mode is Live <==> event
            is Welcome) && (session.after_event(event).mode is Connecting <==> !(event
            is Welcome)),
        session.after_input(snapshot).0.wf(),
        session.after_frame(elapsed).0.wf(),
        session.after_skip(target).0.wf(),
        session.after_toggle().wf(),
        session.after_event(event).wf(),
{
    match session.mode {
        Mode::Replaying { playback, game } => {
            lemma_skip_shows_timeline(playback, game, target);
            lemma_skip_lands_on_target(playback, game, target);
            lemma_skip_shows_timeline(playback, game, playback.cursor - SEEK_STEP);
            lemma_skip_lands_on_target(playback, game, playback.cursor - SEEK_STEP);
            lemma_skip_shows_timeline(playback, game, playback.cursor + SEEK_STEP);
            lemma_skip_lands_on_target(playback, game, playback.cursor + SEEK_STEP);
            lemma_simulate_moves_forward(playback, game, elapsed, false);
        },
        _ => {},
    }
}

/// While a replay is paused, frame ticks change nothing: after any number
/// of them, whatever time each one measured, the session is exactly as it
/// was, cursor and game included, and each tick reports that nothing moved.
pub proof fn lemma_paused_frames_change_nothing(session: Session, ticks: Seq<u64>)
    requires
        session.paused(),
    ensures
        session.after_frames(ticks) == session,
        forall|elapsed: u64| #[trigger]
            session.after_frame(elapsed) == (session, Ok::<FrameOutcome, PlaybackError>(
                FrameOutcome::Idle,
            )),
    decreases ticks.len(),
{
    if ticks.len() > 0 {
        lemma_paused_frames_change_nothing(session, ticks.drop_last());
    }
}

/// Outside of seeks the cursor never moves backward and never leaves the
/// recording: a frame moves it forward or not at all, and events from the
/// server and pause toggles leave it where it is.
pub proof fn lemma_cursor_moves_only_forward(session: Session, elapsed: u64, event: GameEvent)
    requires
        session.wf(),
        session.mode is Replaying,
    ensures
        session.cursor()->Some_0 <= session.after_frame(elapsed).0.cursor()->Some_0
            <= session.duration()->Some_0,
        session.after_event(event).cursor() == session.cursor(),
        session.after_toggle().cursor() == session.cursor(),
{
    lemma_simulate_moves_forward(session.mode->playback, session.mode->game, elapsed, false);
}

/// Toggling pause twice restores the session, and a toggle never moves the
/// cursor or touches the game.
pub proof fn lemma_session_toggle_twice(session: Session)
    ensures
        session.after_toggle().after_toggle() == session,
        session.after_toggle().cursor() == session.cursor(),
        session.after_toggle().game() == session.game(),
        session.mode is Replaying ==> session.after_toggle().paused() == !session.paused(),
{
}

/// A seek on a replaying session: it succeeds wherever the target does not
/// lie past entries that are out of order, and always where the target is
/// at or before the cursor; once it succeeds, the cursor stands on the
/// target clamped into the recording and the game shows the recording there.
pub proof fn lemma_session_skip(session: Session, target: int)
    requires
        session.wf(),
        session.mode is Replaying,
    ensures
        ({
            let playback = session.mode->playback;
            let offset = clamp_offset(target, playback.timeline.duration);
            let after = session.after_skip(target);
            &&& after.1 is Ok <==> playback.can_skip(target)
            &&& offset <= playback.cursor ==> after.1 is Ok
            &&& after.1 is Ok ==> after.0.cursor() == Some(offset)
            &&& after.1 is Ok ==> after.0.game() == Some(playback.timeline.state_at(offset))
            &&& after.1 is Err ==> after.0 == session
            &&& 0 <= target <= playback.timeline.duration ==> offset == target
            &&& target > playback.timeline.duration ==> offset == playback.timeline.duration
            &&& target < 0 ==> offset == 0
        }),
{
    let playback = session.mode->playback;
    let game = session.mode->game;
    lemma_skip_lands_on_target(playback, game, target);
    lemma_skip_shows_timeline(playback, game, target);
}

/// Seeking twice to the same target leaves the session exactly as seeking
/// once does.
pub proof fn lemma_session_skip_is_idempotent(session: Session, target: int)
    requires
        session.wf(),
    ensures
        session.after_skip(target).0.after_skip(target) == session.after_skip(target),
{
    match session.mode {
        Mode::Replaying { playback, game } => {
            lemma_skip_is_idempotent(playback, game, target);
        },
        _ => {},
    }
}

/// Replay is deterministic: seeking backward and then forward again to the
/// offset one came from succeeds both times and restores the session
/// exactly, game included, as if no seek had happened.
pub proof fn lemma_session_skip_back_and_return(session: Session, back: int)
    requires
        session.wf(),
        session.mode is Replaying,
        clamp_offset(back, session.mode->playback.timeline.duration)
            <= session.mode->playback.cursor,
    ensures
        ({
            let there = session.after_skip(back);
            let again = there.0.after_skip(session.mode->playback.cursor as int);
            &&& there.1 is Ok
            &&& again.1 is Ok
            &&& again.0 == session
        }),
{
    lemma_skip_back_and_return(session.mode->playback, session.mode->game, back);
}

/// What the seek commands do to a replaying session. Seeking back always
/// succeeds and puts the cursor one step earlier, or on zero where less than
/// a step has been played. Seeking forward, where it succeeds, puts the
/// cursor one step later, or on the end where less than a step is left.
pub proof fn lemma_seek_commands_step(session: Session, snapshot: InputState)
    requires
        session.wf(),
        session.mode is Replaying,
    ensures
        ({
            let playback = session.mode->playback;
            let command = snapshot.spec_command_since(session.inputs);
            let after = session.after_input(snapshot);
            &&& command == Some(PlaybackCommand::SeekBack) ==> after.1 is Ok && after.0.cursor()
                == Some(
                if playback.cursor < SEEK_STEP {
                    0
                } else {
                    (playback.cursor - SEEK_STEP) as u64
                },
            )
            &&& command == Some(PlaybackCommand::SeekForward) && after.1 is Ok
                ==> after.0.cursor() == Some(
                if playback.cursor + SEEK_STEP > playback.timeline.duration {
                    playback.timeline.duration
                } else {
                    (playback.cursor + SEEK_STEP) as u64
                },
            )
            &&& command == Some(PlaybackCommand::TogglePause) ==> after.1 is Ok
                && after.0.cursor() == session.cursor() && after.0.game() == session.game()
                && after.0.paused() == !session.paused()
            &&& command is None ==> after.1 is Ok && after.0.mode == session.mode
            &&& after.1 is Ok ==> after.1->Ok_0.command == command
            &&& after.1 is Err ==> after.0.mode == session.mode
            &&& after.0.inputs == snapshot
        }),
{
    let playback = session.mode->playback;
    let game = session.mode->game;
    lemma_skip_shows_timeline(playback, game, playback.cursor - SEEK_STEP);
}

/// A held signal fires once. Of two snapshots in a row that both hold the
/// seek-forward signal, the second triggers no forward seek; likewise for
/// seeking back and for the pause toggle. And where the second snapshot
/// raises none of the three signals, it leaves replay and game untouched.
pub proof fn lemma_held_signal_fires_once(session: Session, first: InputState, second: InputState)
    requires
        session.wf(),
        session.mode is Replaying,
    ensures
        ({
            let between = session.after_input(first).0;
            let command = second.spec_command_since(first);
            let after = between.after_input(second);
            &&& first.skip_forward && second.skip_forward ==> command != Some(
                PlaybackCommand::SeekForward,
            )
            &&& first.skip_back && second.skip_back ==> command != Some(
                PlaybackCommand::SeekBack,
            )
            &&& first.pause_playback && second.pause_playback ==> command != Some(
                PlaybackCommand::TogglePause,
            )
            &&& after.1 is Ok ==> after.1->Ok_0.command == command
            &&& command is None ==> after.1 is Ok && after.0.mode == between.mode
        }),
{
    lemma_mode_is_fixed(session, first, 0, 0, GameEvent::Welcome { connection_id: 0 });
}

/// Once a live game is over, input and frame ticks leave the game instance
/// as it is: snapshots are dropped, and ticks report no progress.
pub proof fn lemma_finished_live_game_is_left_alone(
    session: Session,
    snapshot: InputState,
    elapsed: u64,
)
    requires
        session.mode is Live,
        session.mode->Live_0.game.status.spec_finished(),
    ensures
        session.after_input(snapshot).0.mode == session.mode,
        session.after_input(snapshot).1 == Ok::<InputOutcome, PlaybackError>(
            InputOutcome::spec_ignored(),
        ),
        session.after_frame(elapsed).0 == session,
        session.after_frame(elapsed).1 == Ok::<FrameOutcome, PlaybackError>(
            FrameOutcome::Live { advanced: false },
        ),
{
}

enum Stage {
    Connecting,
    Live(LiveSession),
    Replaying(PlaybackController, GameState),
}

/// Owns the game instance and decides, for every input and every frame,
/// which path may touch it.
pub struct SessionController {
    stage: Stage,
    inputs: InputState,
}

impl View for SessionController {
    type V = Session;

    closed spec fn view(&self) -> Session {
        Session {
            mode: match self.stage {
                Stage::Connecting => Mode::Connecting,
                Stage::Live(live) => Mode::Live(live),
                Stage::Replaying(playback, game) => Mode::Replaying { playback: playback@, game },
            },
            inputs: self.inputs,
        }
    }
}

impl SessionController {
    #[verifier::type_invariant]
    spec fn inv(self) -> bool {
        self@.wf()
    }

    /// A session that waits for the server to admit it.
    pub fn connecting() -> (s: SessionController)
        ensures
            s@ == Session::connecting(),
            s@.wf(),
    {
        SessionController { stage: Stage::Connecting, inputs: InputState::released() }
    }

    /// A session that replays `recording` from its start.
    pub fn replaying(recording: RecordedGame) -> (s: SessionController)
        ensures
            s@ == Session::replaying(recording@),
            s@.wf(),
    {
        proof {
            lemma_opening_is_sound(recording@);
        }
        let mut playback = PlaybackController::new(recording);
        let mut game = GameState::lobby();
        let _ = playback.seek(0, &mut game);
        SessionController {
            stage: Stage::Replaying(playback, game),
            inputs: InputState::released(),
        }
    }

    /// The replay cursor in nanoseconds, where the session replays a
    /// recording.
    pub fn current_time(&self) -> (t: Option<u64>)
        ensures
            t == self@.cursor(),
            self@.wf(),
    {
        proof {
            use_type_invariant(self);
        }
        match &self.stage {
            Stage::Replaying(playback, _) => Some(playback.current_time()),
            _ => None,
        }
    }

    /// The length of the recording in nanoseconds, where the session
    /// replays one.
    pub fn duration(&self) -> (d: Option<u64>)
        ensures
            d == self@.duration(),
    {
        match &self.stage {
            Stage::Replaying(playback, _) => Some(playback.duration()),
            _ => None,
        }
    }

    /// Whether the session replays a recording and the replay is paused.
    pub fn paused(&self) -> (b: bool)
        ensures
            b == self@.paused(),
    {
        match &self.stage {
            Stage::Replaying(playback, _) => playback.paused(),
            _ => false,
        }
    }

    /// The game instance, once there is one.
    pub fn game(&self) -> (g: Option<GameState>)
        ensures
            g == self@.game(),
            self@.wf(),
    {
        proof {
            use_type_invariant(self);
        }
        match &self.stage {
            Stage::Connecting => None,
            Stage::Live(live) => Some(live.game),
            Stage::Replaying(_, game) => Some(*game),
        }
    }

    /// The recording, where the session replays one.
    pub fn recording(&self) -> (r: Option<&RecordedGame>)
        ensures
            match r {
                Some(recording) => self@.mode is Replaying && recording@
                    == self@.mode->playback.timeline,
                None => !(self@.mode is Replaying),
            },
    {
        match &self.stage {
            Stage::Replaying(playback, _) => Some(playback.recording()),
            _ => None,
        }
    }

    /// The snapshot that the next one will be compared with.
    pub fn inputs(&self) -> (i: InputState)
        ensures
            i == self@.inputs,
    {
        self.inputs
    }

    /// Whether the session still waits for the server.
    pub fn is_connecting(&self) -> (b: bool)
        ensures
            b == (self@.mode is Connecting),
    {
        match &self.stage {
            Stage::Connecting => true,
            _ => false,
        }
    }

    /// Whether the session replays a recording.
    pub fn is_replaying(&self) -> (b: bool)
        ensures
            b == (self@.mode is Replaying),
    {
        match &self.stage {
            Stage::Replaying(_, _) => true,
            _ => false,
        }
    }

    /// Takes the stage out for the length of one operation, leaving the
    /// session connecting meanwhile.
    fn take_stage(&mut self) -> (stage: Stage)
        ensures
            stage == old(self).stage,
            final(self).stage == Stage::Connecting,
            final(self).inputs == old(self).inputs,
    {
        let mut stage = Stage::Connecting;
        std::mem::swap(&mut stage, &mut self.stage);
        stage
    }

    /// Takes in an event from the server.
    pub fn receive(&mut self, event: GameEvent)
        ensures
            final(self)@.wf(),
            final(self)@ == old(self)@.after_event(event),
    {
        proof {
            use_type_invariant(&*self);
        }
        let stage = self.take_stage();
        self.stage = match stage {
            Stage::Connecting => match event {
                GameEvent::Welcome { connection_id } => Stage::Live(
                    LiveSession::new(connection_id),
                ),
                _ => Stage::Connecting,
            },
            Stage::Live(mut live) => {
                live.receive(event);
                Stage::Live(live)
            },
            Stage::Replaying(playback, game) => Stage::Replaying(playback, game),
        };
    }

    /// Seeks the replay to `target` nanoseconds, clamped into the
    /// recording. A session that is not replaying has nothing to seek and
    /// stays as it is.
    pub fn skip_to(&mut self, target: i64) -> (r: Result<(), PlaybackError>)
        ensures
            final(self)@.wf(),
            (final(self)@, r) == old(self)@.after_skip(target as int),
    {
        proof {
            use_type_invariant(&*self);
        }
        match self.take_stage() {
            Stage::Replaying(mut playback, mut game) => {
                proof {
                    lemma_skip_shows_timeline(playback@, game, target as int);
                }
                let r = playback.skip_to(target, &mut game);
                self.stage = Stage::Replaying(playback, game);
                r
            },
            stage => {
                self.stage = stage;
                Ok(())
            },
        }
    }

    /// Pauses a running replay and resumes a paused one. A session that is
    /// not replaying stays as it is.
    pub fn toggle_pause(&mut self)
        ensures
            final(self)@.wf(),
            final(self)@ == old(self)@.after_toggle(),
    {
        proof {
            use_type_invariant(&*self);
        }
        match self.take_stage() {
            Stage::Replaying(mut playback, game) => {
                playback.toggle_pause();
                self.stage = Stage::Replaying(playback, game);
            },
            stage => {
                self.stage = stage;
            },
        }
    }

    /// Has the replay obey `command`, if there is one.
    fn obey(
        playback: &mut PlaybackController,
        game: &mut GameState,
        command: Option<PlaybackCommand>,
    ) -> (r: Result<(), PlaybackError>)
        requires
            old(playback)@.wf(),
            old(playback)@.tracks(*old(game)),
        ensures
            final(playback)@.wf(),
            final(playback)@.tracks(*final(game)),
            (Step { playback: final(playback)@, game: *final(game), result: r })
                == Session::commanded(old(playback)@, *old(game), command),
    {
        let time = playback.current_time();
        proof {
            lemma_skip_shows_timeline(playback@, *game, time - SEEK_STEP);
            lemma_skip_shows_timeline(playback@, *game, time + SEEK_STEP);
        }
        match command {
            Some(PlaybackCommand::SeekBack) => playback.seek(time.saturating_sub(SEEK_STEP), game),
            Some(PlaybackCommand::SeekForward) => {
                let target = match time.checked_add(SEEK_STEP) {
                    Some(t) => t,
                    None => playback.duration(),
                };
                playback.seek(target, game)
            },
            Some(PlaybackCommand::TogglePause) => {
                playback.toggle_pause();
                Ok(())
            },
            None => Ok(()),
        }
    }

    /// Takes the next input snapshot.
    ///
    /// One-shot commands are read off the difference between this snapshot
    /// and the one before; a replay obeys them even where its game is over.
    /// Continuous input goes to the live session unless the game is over.
    /// The only failure is a seek that the recording does not allow; it
    /// leaves replay and game as they were.
    pub fn handle_input(&mut self, snapshot: InputState) -> (r: Result<
        InputOutcome,
        PlaybackError,
    >)
        ensures
            final(self)@.wf(),
            (final(self)@, r) == old(self)@.after_input(snapshot),
    {
        proof {
            use_type_invariant(&*self);
        }
        let command = snapshot.command_since(&self.inputs);
        match self.take_stage() {
            Stage::Connecting => Ok(InputOutcome::ignored()),
            Stage::Replaying(mut playback, mut game) => {
                let obeyed = SessionController::obey(&mut playback, &mut game, command);
                let resumed = match command {
                    Some(PlaybackCommand::TogglePause) => !playback.paused(),
                    _ => false,
                };
                self.inputs = snapshot;
                self.stage = Stage::Replaying(playback, game);
                match obeyed {
                    Ok(_) => Ok(InputOutcome { command, resumed, forwarded: false }),
                    Err(e) => Err(e),
                }
            },
            Stage::Live(mut live) => {
                let forwarded = if live.game.status.finished() {
                    false
                } else {
                    live.take_input(snapshot).is_ok()
                };
                self.inputs = snapshot;
                self.stage = Stage::Live(live);
                Ok(InputOutcome { command: None, resumed: false, forwarded })
            },
        }
    }

    /// Runs one frame of `elapsed` nanoseconds on whichever path is active.
    ///
    /// Never runs both paths, and runs neither while the session is
    /// connecting or the replay is paused. The only failure is a replay step
    /// that the recording does not allow; it leaves replay and game as they
    /// were.
    pub fn simulate_frame(&mut self, elapsed: u64) -> (r: Result<FrameOutcome, PlaybackError>)
        ensures
            final(self)@.wf(),
            (final(self)@, r) == old(self)@.after_frame(elapsed),
    {
        proof {
            use_type_invariant(&*self);
        }
        match self.take_stage() {
            Stage::Connecting => Ok(FrameOutcome::Idle),
            Stage::Replaying(mut playback, mut game) => {
                proof {
                    lemma_simulate_moves_forward(playback@, game, elapsed, false);
                }
                let r = if playback.paused() {
                    Ok(FrameOutcome::Idle)
                } else {
                    match playback.simulate(elapsed, &mut game, false) {
                        Ok(_) => Ok(FrameOutcome::Replayed),
                        Err(e) => Err(e),
                    }
                };
                self.stage = Stage::Replaying(playback, game);
                r
            },
            Stage::Live(mut live) => {
                let r = if live.joined() {
                    FrameOutcome::Live { advanced: live.simulate(elapsed) }
                } else {
                    FrameOutcome::Idle
                };
                self.stage = Stage::Live(live);
                Ok(r)
            },
        }
    }
}

} // verus!
