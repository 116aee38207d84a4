//! Recorded timelines and what it means to replay one.
//!
//! A timeline is a list of stamped events. Replaying it up to an offset means
//! taking in, in list order, every entry from the front up to the first one
//! stamped later than the offset. A timeline is sound where no entry is
//! stamped earlier than the entry before it; replay stops at the first entry
//! that breaks this.

use vstd::prelude::*;
use crate::game::{GameEvent, GameState};

verus! {

/// One entry of a recorded timeline.
#[derive(Clone, Copy, Debug, PartialEq, Eq, Structural)]
pub struct RecordedEntry {
    /// When the event happened, in nanoseconds since the recording began.
    pub since_start: u64,
    /// What happened.
    pub event: GameEvent,
}

/// A recorded session: stamped events covering `[0, duration]`.
#[derive(Clone, Debug, PartialEq, Eq)]
pub struct RecordedGame {
    /// The version of the program that made the recording.
    pub version: String,
    /// Total length of the recording in nanoseconds.
    pub duration: u64,
    /// The events, oldest first.
    pub entries: Vec<RecordedEntry>,
}

/// The mathematical content of a [`RecordedGame`].
pub struct Timeline {
    pub version: Seq<char>,
    pub duration: u64,
    pub entries: Seq<RecordedEntry>,
}

impl View for RecordedGame {
    type V = Timeline;

    open spec fn view(&self) -> Timeline {
        Timeline { version: self.version@, duration: self.duration, entries: self.entries@ }
    }
}

impl Timeline {
    /// The index at which replay halts when it starts at entry `from` and may
    /// go no later than `horizon`: the first index at or after `from` whose
    /// entry is stamped later than `horizon`, or the end of the list.
    pub open spec fn reach(self, from: int, horizon: u64) -> int
        decreases self.entries.len() - from,
    {
        if 0 <= from < self.entries.len() && self.entries[from].since_start <= horizon {
            self.reach(from + 1, horizon)
        } else {
            from
        }
    }

    /// Entry `i` is stamped no earlier than the entry before it.
    pub open spec fn in_order(self, i: int) -> bool {
        i <= 0 || self.entries[i - 1].since_start <= self.entries[i].since_start
    }

    /// The first index in `[from, to)` whose entry is out of order, or `to`
    /// where there is none.
    pub open spec fn first_fault(self, from: int, to: int) -> int
        decreases to - from,
    {
        if from >= to {
            to
        } else if !self.in_order(from) {
            from
        } else {
            self.first_fault(from + 1, to)
        }
    }

    /// Every entry in `[from, to)` is in order.
    pub open spec fn sound(self, from: int, to: int) -> bool {
        self.first_fault(from, to) == to
    }

    /// The game that results from `state` by taking in the entries
    /// `[from, to)` in list order.
    pub open spec fn replay(self, state: GameState, from: int, to: int) -> GameState
        decreases to - from,
    {
        if from >= to {
            state
        } else {
            self.replay(state, from, to - 1).after(self.entries[to - 1].event)
        }
    }

    /// The game a replay shows at `offset`: a lobby that has taken in every
    /// entry due by then, with its clock at `offset`.
    pub open spec fn state_at(self, offset: u64) -> GameState {
        self.replay(GameState::spec_lobby(), 0, self.reach(0, offset)).at(offset)
    }

    /// `reach` stays within the list, passes only entries that are due, and
    /// halts at an entry that is not.
    pub proof fn lemma_reach(self, from: int, horizon: u64)
        requires
            0 <= from <= self.entries.len(),
        ensures
            from <= self.reach(from, horizon) <= self.entries.len(),
            forall|i: int|
                from <= i < self.reach(from, horizon) ==> (#[trigger] self.entries[i]).since_start
                    <= horizon,
            self.reach(from, horizon) < self.entries.len() ==> self.entries[self.reach(
                from,
                horizon,
            )].since_start > horizon,
        decreases self.entries.len() - from,
    {
        if from < self.entries.len() && self.entries[from].since_start <= horizon {
            self.lemma_reach(from + 1, horizon);
        }
    }

    /// A later horizon reaches at least as far, and reaching in two stages
    /// halts where reaching at once does.
    pub proof fn lemma_reach_in_stages(self, from: int, sooner: u64, later: u64)
        requires
            0 <= from <= self.entries.len(),
            sooner <= later,
        ensures
            self.reach(from, sooner) <= self.reach(from, later),
            self.reach(self.reach(from, sooner), later) == self.reach(from, later),
        decreases self.entries.len() - from,
    {
        if from < self.entries.len() && self.entries[from].since_start <= sooner {
            self.lemma_reach_in_stages(from + 1, sooner, later);
        } else {
            self.lemma_reach(from, later);
        }
    }

    /// `first_fault` names an out-of-order entry with none before it, or the
    /// end of the range.
    pub proof fn lemma_first_fault(self, from: int, to: int)
        requires
            from <= to,
        ensures
            from <= self.first_fault(from, to) <= to,
            forall|i: int| from <= i < self.first_fault(from, to) ==> self.in_order(i),
            self.first_fault(from, to) < to ==> !self.in_order(self.first_fault(from, to)),
        decreases to - from,
    {
        if from < to && self.in_order(from) {
            self.lemma_first_fault(from + 1, to);
        }
    }

    /// A range in which every entry is in order is sound.
    pub proof fn lemma_sound_from_order(self, from: int, to: int)
        requires
            from <= to,
            forall|i: int| from <= i < to ==> self.in_order(i),
        ensures
            self.sound(from, to),
        decreases to - from,
    {
        if from < to {
            self.lemma_sound_from_order(from + 1, to);
        }
    }

    /// The first fault of a range whose front part is sound is the first
    /// fault of the rest.
    pub proof fn lemma_first_fault_after_sound(self, from: int, mid: int, to: int)
        requires
            from <= mid <= to,
            self.sound(from, mid),
        ensures
            self.first_fault(from, to) == self.first_fault(mid, to),
        decreases mid - from,
    {
        if from < mid {
            self.lemma_first_fault(from + 1, mid);
            self.lemma_first_fault_after_sound(from + 1, mid, to);
        }
    }

    /// A part of a sound range is sound.
    pub proof fn lemma_sound_within(self, from: int, to: int, inner_from: int, inner_to: int)
        requires
            from <= inner_from <= inner_to <= to,
            self.sound(from, to),
        ensures
            self.sound(inner_from, inner_to),
    {
        self.lemma_first_fault(from, to);
        self.lemma_sound_from_order(inner_from, inner_to);
    }

    /// Replaying a range in two stages gives what replaying it at once gives.
    pub proof fn lemma_replay_in_stages(self, state: GameState, from: int, mid: int, to: int)
        requires
            from <= mid <= to,
        ensures
            self.replay(self.replay(state, from, mid), mid, to) == self.replay(state, from, to),
        decreases to - mid,
    {
        if mid < to {
            self.lemma_replay_in_stages(state, from, mid, to - 1);
        }
    }

    /// Replay never touches the clock.
    pub proof fn lemma_replay_keeps_clock(self, state: GameState, from: int, to: int)
        ensures
            self.replay(state, from, to).clock == state.clock,
            forall|clock: u64| #[trigger]
                self.replay(state.at(clock), from, to) == self.replay(state, from, to).at(clock),
        decreases to - from,
    {
        if from < to {
            self.lemma_replay_keeps_clock(state, from, to - 1);
            assert forall|clock: u64| #[trigger]
                self.replay(state.at(clock), from, to) == self.replay(state, from, to).at(
                    clock,
                ) by {
                assert(self.replay(state.at(clock), from, to - 1) == self.replay(
                    state,
                    from,
                    to - 1,
                ).at(clock));
            }
        }
    }
}

impl RecordedGame {
    /// Total length of the recording in nanoseconds.
    pub fn duration(&self) -> (d: u64)
        ensures
            d == self@.duration,
    {
        self.duration
    }
}

} // verus!
