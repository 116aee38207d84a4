use game_session::{
    FrameOutcome, GameEvent, GameState, GameStatus, InputOutcome, InputState, PlaybackCommand,
    PlaybackError, RecordedEntry, RecordedGame, SessionController, SEEK_STEP,
};

fn snapshot(since_start: u64, status: GameStatus) -> RecordedEntry {
    RecordedEntry { since_start, event: GameEvent::Snapshot { status } }
}

fn two_minutes() -> RecordedGame {
    RecordedGame {
        version: String::from("v1"),
        duration: 120_000_000_000,
        entries: vec![
            RecordedEntry { since_start: 0, event: GameEvent::Welcome { connection_id: 4 } },
            snapshot(0, GameStatus::Playing),
            snapshot(47_000_000_000, GameStatus::Lobby),
            snapshot(110_000_000_000, GameStatus::Finished),
        ],
    }
}

fn held(skip_back: bool, skip_forward: bool, pause_playback: bool) -> InputState {
    InputState { skip_back, skip_forward, pause_playback, ..InputState::released() }
}

fn live_playing() -> SessionController {
    let mut session = SessionController::connecting();
    session.receive(GameEvent::Welcome { connection_id: 11 });
    session.receive(GameEvent::Snapshot { status: GameStatus::Playing });
    session
}

#[test]
fn seek_step_is_five_seconds() {
    assert_eq!(SEEK_STEP, 5_000_000_000);
}

#[test]
fn replay_opens_on_the_recording_at_offset_zero() {
    let session = SessionController::replaying(two_minutes());
    assert!(session.is_replaying());
    assert!(!session.is_connecting());
    assert_eq!(session.current_time(), Some(0));
    assert_eq!(session.duration(), Some(120_000_000_000));
    assert!(!session.paused());
    assert_eq!(
        session.game(),
        Some(GameState { status: GameStatus::Playing, connection_id: 4, clock: 0 })
    );
    assert_eq!(session.inputs(), InputState::released());
}

#[test]
fn seek_back_edge_moves_the_cursor_from_fifty_to_forty_five_seconds() {
    let mut session = SessionController::replaying(two_minutes());
    session.skip_to(50_000_000_000).unwrap();
    assert_eq!(session.current_time(), Some(50_000_000_000));
    assert_eq!(session.game().unwrap().status, GameStatus::Lobby);

    let outcome = session.handle_input(held(true, false, false)).unwrap();
    assert_eq!(outcome.command, Some(PlaybackCommand::SeekBack));
    assert_eq!(session.current_time(), Some(45_000_000_000));
    assert_eq!(session.game().unwrap().status, GameStatus::Playing);

    // Still held two seconds on: no second seek.
    assert_eq!(session.simulate_frame(2_000_000_000), Ok(FrameOutcome::Replayed));
    assert_eq!(session.current_time(), Some(47_000_000_000));
    let outcome = session.handle_input(held(true, false, false)).unwrap();
    assert_eq!(outcome, InputOutcome { command: None, resumed: false, forwarded: false });
    assert_eq!(session.current_time(), Some(47_000_000_000));

    // Released, then pressed again: the command fires again.
    let outcome = session.handle_input(held(false, false, false)).unwrap();
    assert_eq!(outcome.command, None);
    assert_eq!(session.current_time(), Some(47_000_000_000));
    let outcome = session.handle_input(held(true, false, false)).unwrap();
    assert_eq!(outcome.command, Some(PlaybackCommand::SeekBack));
    assert_eq!(session.current_time(), Some(42_000_000_000));
}

#[test]
fn seek_forward_near_the_end_clamps_to_the_duration() {
    let mut session = SessionController::replaying(two_minutes());
    session.skip_to(118_000_000_000).unwrap();
    let outcome = session.handle_input(held(false, true, false)).unwrap();
    assert_eq!(outcome.command, Some(PlaybackCommand::SeekForward));
    assert_eq!(session.current_time(), Some(120_000_000_000));
    assert_eq!(session.game().unwrap().clock, 120_000_000_000);
}

#[test]
fn seek_back_near_the_start_clamps_to_zero() {
    let mut session = SessionController::replaying(two_minutes());
    session.skip_to(3_000_000_000).unwrap();
    session.handle_input(held(true, false, false)).unwrap();
    assert_eq!(session.current_time(), Some(0));
}

#[test]
fn holding_seek_forward_triggers_exactly_one_seek() {
    let mut session = SessionController::replaying(two_minutes());
    let first = session.handle_input(held(false, true, false)).unwrap();
    assert_eq!(first.command, Some(PlaybackCommand::SeekForward));
    assert_eq!(session.current_time(), Some(5_000_000_000));
    for _ in 0..4 {
        let next = session.handle_input(held(false, true, false)).unwrap();
        assert_eq!(next.command, None);
        assert_eq!(session.current_time(), Some(5_000_000_000));
    }
}

#[test]
fn seeking_back_wins_over_forward_and_both_over_pause() {
    let mut session = SessionController::replaying(two_minutes());
    session.skip_to(60_000_000_000).unwrap();
    let outcome = session.handle_input(held(true, true, true)).unwrap();
    assert_eq!(outcome.command, Some(PlaybackCommand::SeekBack));
    assert_eq!(session.current_time(), Some(55_000_000_000));
    assert!(!session.paused());

    session.handle_input(held(false, false, false)).unwrap();
    let outcome = session.handle_input(held(false, true, true)).unwrap();
    assert_eq!(outcome.command, Some(PlaybackCommand::SeekForward));
    assert_eq!(session.current_time(), Some(60_000_000_000));
    assert!(!session.paused());
}

#[test]
fn pause_toggle_reports_when_the_replay_resumes() {
    let mut session = SessionController::replaying(two_minutes());
    session.skip_to(20_000_000_000).unwrap();
    let paused = session.handle_input(held(false, false, true)).unwrap();
    assert_eq!(
        paused,
        InputOutcome {
            command: Some(PlaybackCommand::TogglePause),
            resumed: false,
            forwarded: false
        }
    );
    assert!(session.paused());
    assert_eq!(session.current_time(), Some(20_000_000_000));

    session.handle_input(held(false, false, false)).unwrap();
    let resumed = session.handle_input(held(false, false, true)).unwrap();
    assert_eq!(
        resumed,
        InputOutcome {
            command: Some(PlaybackCommand::TogglePause),
            resumed: true,
            forwarded: false
        }
    );
    assert!(!session.paused());
    assert_eq!(session.current_time(), Some(20_000_000_000));
}

#[test]
fn paused_frames_change_neither_cursor_nor_game() {
    let mut session = SessionController::replaying(two_minutes());
    session.skip_to(46_000_000_000).unwrap();
    session.toggle_pause();
    let game = session.game();
    for elapsed in [0u64, 16, 1_000_000_000, 60_000_000_000, u64::MAX] {
        assert_eq!(session.simulate_frame(elapsed), Ok(FrameOutcome::Idle));
        assert_eq!(session.current_time(), Some(46_000_000_000));
        assert_eq!(session.game(), game);
        assert!(session.paused());
    }
    session.toggle_pause();
    assert_eq!(session.simulate_frame(1_000_000_000), Ok(FrameOutcome::Replayed));
    assert_eq!(session.current_time(), Some(47_000_000_000));
    assert_eq!(session.game().unwrap().status, GameStatus::Lobby);
}

#[test]
fn session_toggle_twice_restores_pause_and_keeps_the_cursor() {
    let mut session = SessionController::replaying(two_minutes());
    session.skip_to(12_345_000_000).unwrap();
    let game = session.game();
    session.toggle_pause();
    session.toggle_pause();
    assert!(!session.paused());
    assert_eq!(session.current_time(), Some(12_345_000_000));
    assert_eq!(session.game(), game);
}

#[test]
fn finished_replay_can_still_be_scrubbed() {
    let mut session = SessionController::replaying(two_minutes());
    session.skip_to(115_000_000_000).unwrap();
    assert_eq!(session.game().unwrap().status, GameStatus::Finished);
    let outcome = session.handle_input(held(true, false, false)).unwrap();
    assert_eq!(outcome.command, Some(PlaybackCommand::SeekBack));
    assert_eq!(session.current_time(), Some(110_000_000_000));
    session.handle_input(held(false, false, false)).unwrap();
    let outcome = session.handle_input(held(false, false, true)).unwrap();
    assert_eq!(outcome.command, Some(PlaybackCommand::TogglePause));
    assert!(session.paused());
}

#[test]
fn session_seek_is_idempotent_and_returns_exactly() {
    let mut session = SessionController::replaying(two_minutes());
    session.simulate_frame(30_000_000_000).unwrap();
    session.simulate_frame(30_000_000_000).unwrap();
    let before = (session.current_time(), session.game(), session.paused());
    session.skip_to(10_000_000_000).unwrap();
    let once = (session.current_time(), session.game(), session.paused());
    session.skip_to(10_000_000_000).unwrap();
    assert_eq!((session.current_time(), session.game(), session.paused()), once);
    session.skip_to(60_000_000_000).unwrap();
    assert_eq!((session.current_time(), session.game(), session.paused()), before);
}

#[test]
fn failed_seek_surfaces_and_leaves_the_replay_as_it_was() {
    let rec = RecordedGame {
        version: String::new(),
        duration: 60_000_000_000,
        entries: vec![snapshot(4_000_000_000, GameStatus::Playing), snapshot(3_000_000_000, GameStatus::Lobby)],
    };
    let mut session = SessionController::replaying(rec);
    session.skip_to(1_000_000_000).unwrap();
    let game = session.game();
    assert_eq!(
        session.handle_input(held(false, true, false)),
        Err(PlaybackError::OutOfOrder { index: 1 })
    );
    assert_eq!(session.current_time(), Some(1_000_000_000));
    assert_eq!(session.game(), game);
    assert_eq!(session.inputs(), held(false, true, false));
    // The signal is still held: it does not fire again.
    assert_eq!(
        session.handle_input(held(false, true, false)),
        Ok(InputOutcome { command: None, resumed: false, forwarded: false })
    );
    assert_eq!(session.simulate_frame(5_000_000_000), Err(PlaybackError::OutOfOrder { index: 1 }));
    assert_eq!(session.current_time(), Some(1_000_000_000));
    assert_eq!(session.skip_to(60_000_000_000), Err(PlaybackError::OutOfOrder { index: 1 }));
    assert_eq!(session.skip_to(3_999_000_000), Ok(()));
}

#[test]
fn connecting_session_ignores_input_and_frames() {
    let mut session = SessionController::connecting();
    assert!(session.is_connecting());
    assert_eq!(session.game(), None);
    assert_eq!(session.current_time(), None);
    let all = InputState {
        up: true,
        down: true,
        left: true,
        right: true,
        kill: true,
        report: true,
        activate: true,
        play: true,
        skip_back: true,
        skip_forward: true,
        pause_playback: true,
    };
    assert_eq!(
        session.handle_input(all),
        Ok(InputOutcome { command: None, resumed: false, forwarded: false })
    );
    assert_eq!(session.inputs(), InputState::released());
    assert_eq!(session.simulate_frame(16), Ok(FrameOutcome::Idle));
    assert_eq!(session.skip_to(5_000_000_000), Ok(()));
    session.toggle_pause();
    assert!(session.is_connecting());
    assert!(!session.paused());
    session.receive(GameEvent::Snapshot { status: GameStatus::Playing });
    assert!(session.is_connecting());
}

#[test]
fn welcome_turns_a_connecting_session_live() {
    let mut session = SessionController::connecting();
    session.receive(GameEvent::Welcome { connection_id: 11 });
    assert!(!session.is_connecting());
    assert!(!session.is_replaying());
    assert_eq!(
        session.game(),
        Some(GameState { status: GameStatus::Connecting, connection_id: 11, clock: 0 })
    );
    // Admitted, but no game seen yet: frames do not touch the live session
    // and input is passed over in silence.
    assert_eq!(session.simulate_frame(16), Ok(FrameOutcome::Idle));
    let input = InputState { up: true, ..InputState::released() };
    assert_eq!(
        session.handle_input(input),
        Ok(InputOutcome { command: None, resumed: false, forwarded: false })
    );
    assert_eq!(session.inputs(), input);
    assert_eq!(session.game().unwrap().clock, 0);
}

#[test]
fn live_session_takes_input_and_advances() {
    let mut session = live_playing();
    let input = InputState { left: true, kill: true, skip_forward: true, ..InputState::released() };
    assert_eq!(
        session.handle_input(input),
        Ok(InputOutcome { command: None, resumed: false, forwarded: true })
    );
    assert_eq!(session.simulate_frame(16), Ok(FrameOutcome::Live { advanced: true }));
    assert_eq!(session.simulate_frame(17), Ok(FrameOutcome::Live { advanced: true }));
    assert_eq!(
        session.game(),
        Some(GameState { status: GameStatus::Playing, connection_id: 11, clock: 33 })
    );
    assert_eq!(session.current_time(), None);
    assert_eq!(session.skip_to(10), Ok(()));
    assert_eq!(session.game().unwrap().clock, 33);
}

#[test]
fn live_session_in_the_lobby_reports_no_progress() {
    let mut session = SessionController::connecting();
    session.receive(GameEvent::Welcome { connection_id: 1 });
    session.receive(GameEvent::Snapshot { status: GameStatus::Lobby });
    assert_eq!(session.simulate_frame(16), Ok(FrameOutcome::Live { advanced: false }));
    assert_eq!(session.game().unwrap().clock, 0);
    assert_eq!(
        session.handle_input(InputState { up: true, ..InputState::released() }),
        Ok(InputOutcome { command: None, resumed: false, forwarded: true })
    );
}

#[test]
fn finished_live_game_drops_input_and_is_not_simulated() {
    let mut session = live_playing();
    session.simulate_frame(1_000_000_000).unwrap();
    session.receive(GameEvent::Snapshot { status: GameStatus::Finished });
    let game = session.game();
    assert_eq!(
        game,
        Some(GameState { status: GameStatus::Finished, connection_id: 11, clock: 1_000_000_000 })
    );
    let input = InputState { up: true, pause_playback: true, ..InputState::released() };
    assert_eq!(
        session.handle_input(input),
        Ok(InputOutcome { command: None, resumed: false, forwarded: false })
    );
    assert_eq!(session.game(), game);
    assert_eq!(session.simulate_frame(16), Ok(FrameOutcome::Live { advanced: false }));
    assert_eq!(session.simulate_frame(5_000_000_000), Ok(FrameOutcome::Live { advanced: false }));
    assert_eq!(session.game(), game);
    assert!(!session.paused());
}

#[test]
fn replay_is_deaf_to_the_network_and_never_turns_live() {
    let mut session = SessionController::replaying(two_minutes());
    session.skip_to(30_000_000_000).unwrap();
    let game = session.game();
    session.receive(GameEvent::Welcome { connection_id: 99 });
    session.receive(GameEvent::Snapshot { status: GameStatus::Finished });
    assert!(session.is_replaying());
    assert_eq!(session.game(), game);
    let input = InputState { up: true, ..InputState::released() };
    assert_eq!(
        session.handle_input(input),
        Ok(InputOutcome { command: None, resumed: false, forwarded: false })
    );
    assert_eq!(session.game(), game);
}

#[test]
fn frame_outcome_says_whether_to_draw() {
    assert!(!FrameOutcome::Idle.progressed());
    assert!(FrameOutcome::Replayed.progressed());
    assert!(FrameOutcome::Live { advanced: true }.progressed());
    assert!(!FrameOutcome::Live { advanced: false }.progressed());
    assert_eq!(
        InputOutcome::ignored(),
        InputOutcome { command: None, resumed: false, forwarded: false }
    );
}
