//! Seekable, pausable replay of a recorded timeline into a game instance.

use vstd::prelude::*;
use crate::game::GameState;
use crate::link::{decimal, decimal_string};
use crate::recording::{RecordedGame, Timeline};

verus! {

/// Why a replay could not reach the offset it was asked for.
#[derive(Clone, Copy, Debug, PartialEq, Eq, Structural)]
pub enum PlaybackError {
    /// The entry at `index` is stamped earlier than the entry before it.
    OutOfOrder { index: usize },
}

impl PlaybackError {
    /// The error in words.
    pub open spec fn spec_message(self) -> Seq<char> {
        match self {
            PlaybackError::OutOfOrder { index } => "Recording entry "@ + decimal(index as nat)
                + " is stamped earlier than the entry before it"@,
        }
    }

    /// The error in words.
    pub fn message(&self) -> (s: String)
        ensures
            s@ == self.spec_message(),
    {
        match self {
            PlaybackError::OutOfOrder { index } => {
                String::from_str("Recording entry ").concat(
                    decimal_string(*index as u64).as_str(),
                ).concat(" is stamped earlier than the entry before it")
            },
        }
    }
}

/// `target` brought into `[0, duration]`.
pub open spec fn clamp_offset(target: int, duration: u64) -> u64 {
    if target < 0 {
        0
    } else if target > duration {
        duration
    } else {
        target as u64
    }
}

/// The mathematical state of a [`PlaybackController`].
pub struct Playback {
    /// The recording being replayed.
    pub timeline: Timeline,
    /// Current offset into the recording, in nanoseconds.
    pub cursor: u64,
    /// How many entries, counted from the front, the game has taken in.
    pub applied: int,
    /// Whether frame time is held back from moving the cursor.
    pub paused: bool,
}

/// What one replay operation leaves behind.
pub struct Step {
    pub playback: Playback,
    pub game: GameState,
    pub result: Result<(), PlaybackError>,
}

impl Playback {
    /// The cursor lies within the recording and the entries taken in are
    /// entries of the recording.
    pub open spec fn wf(self) -> bool {
        &&& self.cursor <= self.timeline.duration
        &&& 0 <= self.applied <= self.timeline.entries.len()
    }

    /// A replay that has not begun: at offset zero, nothing taken in, running.
    pub open spec fn start(timeline: Timeline) -> Playback {
        Playback { timeline, cursor: 0, applied: 0, paused: false }
    }

    /// The same replay with the pause flag flipped.
    pub open spec fn toggled(self) -> Playback {
        Playback { paused: !self.paused, ..self }
    }

    /// The same replay rewound to before its first entry.
    pub open spec fn rewound(self) -> Playback {
        Playback { cursor: 0, applied: 0, ..self }
    }

    /// Moves the cursor forward to `horizon`, feeding `game` every entry that
    /// falls due on the way. Where one of those entries is out of order,
    /// nothing changes and the first such entry is reported.
    pub open spec fn advanced(self, game: GameState, horizon: u64) -> Step {
        let to = self.timeline.reach(self.applied, horizon);
        let fault = self.timeline.first_fault(self.applied, to);
        if fault < to {
            Step {
                playback: self,
                game,
                result: Err(PlaybackError::OutOfOrder { index: fault as usize }),
            }
        } else {
            Step {
                playback: Playback { cursor: horizon, applied: to, ..self },
                game: self.timeline.replay(game, self.applied, to).at(horizon),
                result: Ok(()),
            }
        }
    }

    /// One simulation step of `elapsed` nanoseconds. A paused replay ignores
    /// frame ticks; a scrub moves it all the same. The cursor never passes
    /// the end of the recording.
    pub open spec fn simulated(self, game: GameState, elapsed: u64, is_scrub: bool) -> Step {
        if self.paused && !is_scrub {
            Step { playback: self, game, result: Ok(()) }
        } else {
            self.advanced(game, clamp_offset(self.cursor + elapsed, self.timeline.duration))
        }
    }

    /// A seek to `target`, clamped into the recording. Forward, the game is
    /// fed what falls due between the cursor and the target. Backward, the
    /// game is rebuilt from a lobby. On failure nothing changes.
    pub open spec fn skipped(self, game: GameState, target: int) -> Step {
        let offset = clamp_offset(target, self.timeline.duration);
        if offset < self.cursor {
            let rebuilt = self.rewound().advanced(GameState::spec_lobby(), offset);
            if rebuilt.result is Ok {
                rebuilt
            } else {
                Step { playback: self, game, result: rebuilt.result }
            }
        } else {
            self.advanced(game, offset)
        }
    }

    /// `game` is what this replay shows: every entry due at the cursor has
    /// been taken in, none of them out of order, and `game` is the
    /// recording's state at the cursor.
    pub open spec fn tracks(self, game: GameState) -> bool {
        &&& self.applied == self.timeline.reach(0, self.cursor)
        &&& self.timeline.sound(0, self.applied)
        &&& game == self.timeline.state_at(self.cursor)
    }

    /// A seek succeeds exactly where the entries it has to take in are in
    /// order.
    pub open spec fn can_skip(self, target: int) -> bool {
        let offset = clamp_offset(target, self.timeline.duration);
        let from = if offset < self.cursor {
            0
        } else {
            self.applied
        };
        self.timeline.sound(from, self.timeline.reach(from, offset))
    }
}

/// A seek succeeds exactly where `can_skip` holds, and a seek that succeeds
/// leaves the cursor on the clamped target: on the target itself where it
/// lies within the recording, on the end where it lies beyond, on zero where
/// it is negative.
pub proof fn lemma_skip_lands_on_target(playback: Playback, game: GameState, target: int)
    requires
        playback.wf(),
    ensures
        playback.skipped(game, target).result is Ok <==> playback.can_skip(target),
        playback.skipped(game, target).playback.wf(),
        playback.can_skip(target) ==> playback.skipped(game, target).playback.cursor
            == clamp_offset(target, playback.timeline.duration),
        0 <= target <= playback.timeline.duration ==> clamp_offset(
            target,
            playback.timeline.duration,
        ) == target,
        target > playback.timeline.duration ==> clamp_offset(target, playback.timeline.duration)
            == playback.timeline.duration,
        target < 0 ==> clamp_offset(target, playback.timeline.duration) == 0,
{
    let offset = clamp_offset(target, playback.timeline.duration);
    let from = if offset < playback.cursor {
        0
    } else {
        playback.applied
    };
    playback.timeline.lemma_reach(from, offset);
    playback.timeline.lemma_first_fault(from, playback.timeline.reach(from, offset));
}

/// Seeking twice to the same target leaves exactly what seeking once leaves:
/// the same cursor, the same game, the same outcome.
pub proof fn lemma_skip_is_idempotent(playback: Playback, game: GameState, target: int)
    requires
        playback.wf(),
    ensures
        ({
            let once = playback.skipped(game, target);
            once.playback.skipped(once.game, target) == once
        }),
{
    // The first seek halts at an entry that is not due yet, or at the end;
    // the second starts there and has nothing to take in.
    let offset = clamp_offset(target, playback.timeline.duration);
    let from = if offset < playback.cursor {
        0
    } else {
        playback.applied
    };
    playback.timeline.lemma_reach(from, offset);
}

/// A seek on a replay that tracks its game shows the recording's state at
/// the clamped target, and the replay goes on tracking its game. A backward
/// seek on such a replay always succeeds.
pub proof fn lemma_skip_shows_timeline(playback: Playback, game: GameState, target: int)
    requires
        playback.wf(),
        playback.tracks(game),
    ensures
        ({
            let step = playback.skipped(game, target);
            let offset = clamp_offset(target, playback.timeline.duration);
            &&& step.playback.tracks(step.game)
            &&& step.result is Ok ==> step.game == playback.timeline.state_at(offset)
            &&& offset <= playback.cursor ==> step.result is Ok
        }),
{
    let timeline = playback.timeline;
    let offset = clamp_offset(target, timeline.duration);
    timeline.lemma_reach(0, offset);
    if offset < playback.cursor {
        // Backward: what falls due by the target is a front part of what
        // has been taken in already, and that is in order.
        timeline.lemma_reach_in_stages(0, offset, playback.cursor);
        timeline.lemma_sound_within(0, playback.applied, 0, timeline.reach(0, offset));
    } else {
        lemma_advance_keeps_track(playback, game, offset);
    }
}

/// Moving forward keeps a replay on track: where the replay tracks its game
/// before, it tracks it after, whether or not the move succeeds.
pub proof fn lemma_advance_keeps_track(playback: Playback, game: GameState, horizon: u64)
    requires
        playback.wf(),
        playback.tracks(game),
        playback.cursor <= horizon,
    ensures
        ({
            let step = playback.advanced(game, horizon);
            &&& step.playback.tracks(step.game)
            &&& step.result is Ok ==> step.game == playback.timeline.state_at(horizon)
        }),
{
    let timeline = playback.timeline;
    let lobby = GameState::spec_lobby();
    let to = timeline.reach(playback.applied, horizon);
    // Going on from where the cursor stood halts where a replay from the
    // start would halt.
    timeline.lemma_reach_in_stages(0, playback.cursor, horizon);
    timeline.lemma_first_fault(playback.applied, to);
    if timeline.first_fault(playback.applied, to) == to {
        // The game so far, fed the new entries, is the lobby fed all of
        // them; the clock is set afterwards.
        timeline.lemma_first_fault_after_sound(0, playback.applied, to);
        timeline.lemma_replay_keeps_clock(
            timeline.replay(lobby, 0, playback.applied),
            playback.applied,
            to,
        );
        timeline.lemma_replay_in_stages(lobby, 0, playback.applied, to);
        assert(timeline.replay(game, playback.applied, to) == timeline.replay(lobby, 0, to).at(
            playback.cursor,
        ));
    }
}

/// Replay is deterministic: on a replay that tracks its game, seeking
/// backward and then forward again to the offset one came from succeeds both
/// times and restores the cursor and the game exactly.
pub proof fn lemma_skip_back_and_return(playback: Playback, game: GameState, back: int)
    requires
        playback.wf(),
        playback.tracks(game),
        clamp_offset(back, playback.timeline.duration) <= playback.cursor,
    ensures
        ({
            let there = playback.skipped(game, back);
            let again = there.playback.skipped(there.game, playback.cursor as int);
            &&& there.result is Ok
            &&& again.result is Ok
            &&& again.game == game
            &&& again.playback == playback
        }),
{
    let timeline = playback.timeline;
    let there = playback.skipped(game, back);
    let offset = clamp_offset(back, timeline.duration);
    lemma_skip_shows_timeline(playback, game, back);
    // The way back forward takes in entries that were in order before.
    timeline.lemma_reach_in_stages(0, offset, playback.cursor);
    let to = timeline.reach(there.playback.applied, playback.cursor);
    timeline.lemma_sound_within(0, playback.applied, there.playback.applied, to);
    lemma_advance_keeps_track(there.playback, there.game, playback.cursor);
}

/// Toggling pause twice restores the pause flag and never moves the cursor.
pub proof fn lemma_toggle_twice(playback: Playback)
    ensures
        playback.toggled().toggled() == playback,
        playback.toggled().cursor == playback.cursor,
        playback.toggled().paused == !playback.paused,
{
}

/// A paused replay ignores frame ticks: neither the cursor nor the game
/// changes, however much time has passed.
pub proof fn lemma_paused_tick_changes_nothing(playback: Playback, game: GameState, elapsed: u64)
    requires
        playback.paused,
    ensures
        playback.simulated(game, elapsed, false) == (Step {
            playback,
            game,
            result: Ok(()),
        }),
{
}

/// Outside of seeks the cursor only moves forward, and it stays within the
/// recording.
pub proof fn lemma_simulate_moves_forward(
    playback: Playback,
    game: GameState,
    elapsed: u64,
    is_scrub: bool,
)
    requires
        playback.wf(),
    ensures
        playback.cursor <= playback.simulated(game, elapsed, is_scrub).playback.cursor
            <= playback.timeline.duration,
        playback.simulated(game, elapsed, is_scrub).playback.wf(),
        playback.tracks(game) ==> playback.simulated(game, elapsed, is_scrub).playback.tracks(
            playback.simulated(game, elapsed, is_scrub).game,
        ),
{
    let horizon = clamp_offset(playback.cursor + elapsed, playback.timeline.duration);
    playback.timeline.lemma_reach(playback.applied, horizon);
    if playback.tracks(game) {
        lemma_advance_keeps_track(playback, game, horizon);
    }
}

/// Replays one recording into a game instance that the caller holds.
///
/// The controller owns the recording, the cursor into it and the pause flag.
/// The game is handed to each operation, so that one and the same instance
/// can be shown by the replay and read by everything else.
pub struct PlaybackController {
    recording: RecordedGame,
    current_time: u64,
    next_entry: usize,
    paused: bool,
}

impl View for PlaybackController {
    type V = Playback;

    closed spec fn view(&self) -> Playback {
        Playback {
            timeline: self.recording@,
            cursor: self.current_time,
            applied: self.next_entry as int,
            paused: self.paused,
        }
    }
}

impl PlaybackController {
    #[verifier::type_invariant]
    spec fn inv(self) -> bool {
        self@.wf()
    }

    /// A replay of `recording`, at offset zero and running.
    pub fn new(recording: RecordedGame) -> (p: PlaybackController)
        ensures
            p@ == Playback::start(recording@),
            p@.wf(),
    {
        PlaybackController { recording, current_time: 0, next_entry: 0, paused: false }
    }

    /// The cursor: the current offset into the recording, in nanoseconds.
    pub fn current_time(&self) -> (t: u64)
        ensures
            t == self@.cursor,
            t <= self@.timeline.duration,
            self@.wf(),
    {
        proof {
            use_type_invariant(self);
        }
        self.current_time
    }

    /// Total length of the recording, in nanoseconds.
    pub fn duration(&self) -> (d: u64)
        ensures
            d == self@.timeline.duration,
    {
        self.recording.duration
    }

    /// Whether the replay is paused.
    pub fn paused(&self) -> (b: bool)
        ensures
            b == self@.paused,
    {
        self.paused
    }

    /// The recording being replayed.
    pub fn recording(&self) -> (r: &RecordedGame)
        ensures
            r@ == self@.timeline,
    {
        &self.recording
    }

    /// Flips the pause flag. The cursor stays where it is. A caller that
    /// measures frame time starts measuring afresh when this resumes the
    /// replay.
    pub fn toggle_pause(&mut self)
        ensures
            final(self)@ == old(self)@.toggled(),
            final(self)@.wf(),
    {
        proof {
            use_type_invariant(&*self);
        }
        self.paused = !self.paused;
    }

    /// Feeds `base` the entries from `from` on that fall due by `horizon`.
    /// Returns where it halted and the game it arrived at, or the first entry
    /// found out of order.
    fn replay_from(&self, from: usize, base: GameState, horizon: u64) -> (r: Result<
        (usize, GameState),
        PlaybackError,
    >)
        requires
            from <= self@.timeline.entries.len(),
        ensures
            match r {
                Ok((to, game)) => {
                    &&& to == self@.timeline.reach(from as int, horizon)
                    &&& self@.timeline.sound(from as int, to as int)
                    &&& game == self@.timeline.replay(base, from as int, to as int)
                },
                Err(PlaybackError::OutOfOrder { index }) => {
                    let to = self@.timeline.reach(from as int, horizon);
                    &&& index < to
                    &&& index == self@.timeline.first_fault(from as int, to)
                },
            },
    {
        let ghost timeline = self@.timeline;
        let count = self.recording.entries.len();
        let mut next: usize = from;
        let mut game = base;
        while next < count && self.recording.entries[next].since_start <= horizon
            invariant
                timeline == self@.timeline,
                count == timeline.entries.len(),
                from <= next <= count,
                timeline.reach(next as int, horizon) == timeline.reach(from as int, horizon),
                timeline.sound(from as int, next as int),
                game == timeline.replay(base, from as int, next as int),
            decreases count - next,
        {
            let entry = self.recording.entries[next];
            proof {
                timeline.lemma_reach(next + 1, horizon);
                timeline.lemma_first_fault_after_sound(
                    from as int,
                    next as int,
                    timeline.reach(from as int, horizon),
                );
                timeline.lemma_first_fault_after_sound(from as int, next as int, next + 1);
            }
            if next > 0 && entry.since_start < self.recording.entries[next - 1].since_start {
                return Err(PlaybackError::OutOfOrder { index: next });
            }
            proof {
                assert(timeline.first_fault(next + 1, next + 1) == next + 1);
            }
            game.apply(entry.event);
            next = next + 1;
        }
        Ok((next, game))
    }

    /// Moves the cursor to `horizon` and feeds `game` what falls due.
    fn advance(&mut self, horizon: u64, game: &mut GameState) -> (r: Result<(), PlaybackError>)
        requires
            horizon <= old(self)@.timeline.duration,
        ensures
            final(self)@.wf(),
            (Step { playback: final(self)@, game: *final(game), result: r }) == old(
                self,
            )@.advanced(*old(game), horizon),
    {
        proof {
            use_type_invariant(&*self);
            self@.timeline.lemma_reach(self@.applied, horizon);
            self@.timeline.lemma_first_fault(
                self@.applied,
                self@.timeline.reach(self@.applied, horizon),
            );
        }
        match self.replay_from(self.next_entry, *game, horizon) {
            Ok((to, replayed)) => {
                self.current_time = horizon;
                self.next_entry = to;
                *game = GameState { clock: horizon, ..replayed };
                Ok(())
            },
            Err(e) => Err(e),
        }
    }

    /// Advances the replay by `elapsed` nanoseconds of frame time and makes
    /// `game` match.
    ///
    /// A paused replay ignores the call unless `is_scrub` is set, which marks
    /// a jump that the caller asked for rather than time that passed. The
    /// cursor stops at the end of the recording. Fails, changing nothing,
    /// where an entry that falls due is out of order.
    pub fn simulate(&mut self, elapsed: u64, game: &mut GameState, is_scrub: bool) -> (r: Result<
        (),
        PlaybackError,
    >)
        ensures
            final(self)@.wf(),
            (Step { playback: final(self)@, game: *final(game), result: r }) == old(
                self,
            )@.simulated(*old(game), elapsed, is_scrub),
    {
        proof {
            use_type_invariant(&*self);
        }
        if self.paused && !is_scrub {
            return Ok(());
        }
        let horizon = match self.current_time.checked_add(elapsed) {
            Some(t) => if t > self.recording.duration {
                self.recording.duration
            } else {
                t
            },
            None => self.recording.duration,
        };
        self.advance(horizon, game)
    }

    /// Seeks to `offset`, or to the end of the recording where `offset` lies
    /// beyond it. See [`PlaybackController::skip_to`].
    pub fn seek(&mut self, offset: u64, game: &mut GameState) -> (r: Result<(), PlaybackError>)
        ensures
            final(self)@.wf(),
            (Step { playback: final(self)@, game: *final(game), result: r }) == old(
                self,
            )@.skipped(*old(game), offset as int),
    {
        proof {
            use_type_invariant(&*self);
        }
        let offset = if offset > self.recording.duration {
            self.recording.duration
        } else {
            offset
        };
        if offset < self.current_time {
            proof {
                self@.timeline.lemma_reach(0, offset);
            }
            match self.replay_from(0, GameState::lobby(), offset) {
                Ok((to, replayed)) => {
                    self.current_time = offset;
                    self.next_entry = to;
                    *game = GameState { clock: offset, ..replayed };
                    Ok(())
                },
                Err(e) => Err(e),
            }
        } else {
            self.advance(offset, game)
        }
    }

    /// Seeks to `target` nanoseconds and makes `game` show the recording
    /// there.
    ///
    /// The target is clamped into the recording: a negative target seeks to
    /// zero, one past the end seeks to the end. A forward seek feeds the game
    /// what falls due on the way; a backward seek rebuilds the game from the
    /// start. Pausing does not hold a seek back. Fails, changing nothing,
    /// where an entry that has to be taken in is out of order.
    pub fn skip_to(&mut self, target: i64, game: &mut GameState) -> (r: Result<(), PlaybackError>)
        ensures
            final(self)@.wf(),
            (Step { playback: final(self)@, game: *final(game), result: r }) == old(
                self,
            )@.skipped(*old(game), target as int),
    {
        proof {
            use_type_invariant(&*self);
        }
        if target < 0 {
            self.seek(0, game)
        } else {
            self.seek(target as u64, game)
        }
    }
}

} // verus!
