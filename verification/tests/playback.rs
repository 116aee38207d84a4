use game_session::{
    GameEvent, GameState, GameStatus, PlaybackController, PlaybackError, RecordedEntry,
    RecordedGame,
};

#[test]
fn playback_error_says_which_entry_is_at_fault() {
    assert_eq!(
        PlaybackError::OutOfOrder { index: 0 }.message(),
        "Recording entry 0 is stamped earlier than the entry before it"
    );
    assert_eq!(
        PlaybackError::OutOfOrder { index: 1234 }.message(),
        "Recording entry 1234 is stamped earlier than the entry before it"
    );
}

fn entry(since_start: u64, event: GameEvent) -> RecordedEntry {
    RecordedEntry { since_start, event }
}

fn snapshot(since_start: u64, status: GameStatus) -> RecordedEntry {
    entry(since_start, GameEvent::Snapshot { status })
}

/// Two minutes: a welcome at once, the game starts after ten seconds and
/// ends after a hundred.
fn recording() -> RecordedGame {
    RecordedGame {
        version: String::from("v1"),
        duration: 120_000_000_000,
        entries: vec![
            entry(0, GameEvent::Welcome { connection_id: 7 }),
            snapshot(0, GameStatus::Lobby),
            snapshot(10_000_000_000, GameStatus::Playing),
            entry(60_000_000_000, GameEvent::Welcome { connection_id: 9 }),
            snapshot(100_000_000_000, GameStatus::Finished),
        ],
    }
}

fn corrupt() -> RecordedGame {
    RecordedGame {
        version: String::from("v1"),
        duration: 120_000_000_000,
        entries: vec![
            snapshot(1_000_000_000, GameStatus::Lobby),
            snapshot(20_000_000_000, GameStatus::Playing),
            snapshot(15_000_000_000, GameStatus::Finished),
            snapshot(30_000_000_000, GameStatus::Lobby),
        ],
    }
}

#[test]
fn new_controller_starts_at_zero_and_runs() {
    let playback = PlaybackController::new(recording());
    assert_eq!(playback.current_time(), 0);
    assert_eq!(playback.duration(), 120_000_000_000);
    assert!(!playback.paused());
    assert_eq!(playback.recording().version, "v1");
}

#[test]
fn skip_to_lands_exactly_on_offsets_within_the_recording() {
    for target in [0i64, 1, 9_999_000_000, 10_000_000_000, 10_001_000_000, 59_999_000_000, 60_000_000_000, 100_000_000_000, 119_999_000_000, 120_000_000_000] {
        let mut playback = PlaybackController::new(recording());
        let mut game = GameState::lobby();
        assert_eq!(playback.skip_to(target, &mut game), Ok(()));
        assert_eq!(playback.current_time(), target as u64);
        assert_eq!(game.clock, target as u64);
    }
}

#[test]
fn skip_to_clamps_past_the_end_and_before_the_start() {
    let mut playback = PlaybackController::new(recording());
    let mut game = GameState::lobby();
    assert_eq!(playback.skip_to(120_001_000_000, &mut game), Ok(()));
    assert_eq!(playback.current_time(), 120_000_000_000);
    assert_eq!(playback.skip_to(i64::MAX, &mut game), Ok(()));
    assert_eq!(playback.current_time(), 120_000_000_000);
    assert_eq!(playback.skip_to(-1, &mut game), Ok(()));
    assert_eq!(playback.current_time(), 0);
    assert_eq!(playback.skip_to(i64::MIN, &mut game), Ok(()));
    assert_eq!(playback.current_time(), 0);
    assert_eq!(playback.seek(u64::MAX, &mut game), Ok(()));
    assert_eq!(playback.current_time(), 120_000_000_000);
}

#[test]
fn skip_to_shows_the_recording_at_the_target() {
    let mut playback = PlaybackController::new(recording());
    let mut game = GameState::lobby();
    playback.skip_to(5_000_000_000, &mut game).unwrap();
    assert_eq!(game, GameState { status: GameStatus::Lobby, connection_id: 7, clock: 5_000_000_000 });
    playback.skip_to(10_000_000_000, &mut game).unwrap();
    assert_eq!(game, GameState { status: GameStatus::Playing, connection_id: 7, clock: 10_000_000_000 });
    playback.skip_to(99_999_000_000, &mut game).unwrap();
    assert_eq!(game, GameState { status: GameStatus::Playing, connection_id: 9, clock: 99_999_000_000 });
    playback.skip_to(120_000_000_000, &mut game).unwrap();
    assert_eq!(
        game,
        GameState { status: GameStatus::Finished, connection_id: 9, clock: 120_000_000_000 }
    );
}

#[test]
fn skip_to_twice_is_skip_to_once() {
    for target in [-3i64, 0, 10_000_000_000, 45_000_000_000, 100_000_000_000, 500_000_000_000] {
        let mut playback = PlaybackController::new(recording());
        let mut game = GameState::lobby();
        playback.skip_to(70_000_000_000, &mut game).unwrap();
        playback.skip_to(target, &mut game).unwrap();
        let once = (playback.current_time(), playback.paused(), game);
        playback.skip_to(target, &mut game).unwrap();
        assert_eq!((playback.current_time(), playback.paused(), game), once);
    }
}

#[test]
fn seeking_back_and_returning_restores_the_game() {
    let mut playback = PlaybackController::new(recording());
    let mut game = GameState::lobby();
    playback.simulate(40_000_000_000, &mut game, false).unwrap();
    playback.simulate(25_000_000_000, &mut game, false).unwrap();
    let before = game;
    assert_eq!(before, GameState { status: GameStatus::Playing, connection_id: 9, clock: 65_000_000_000 });
    for back in [0i64, 5_000_000_000, 10_000_000_000, 64_999_000_000, 65_000_000_000, -20] {
        playback.skip_to(back, &mut game).unwrap();
        playback.skip_to(65_000_000_000, &mut game).unwrap();
        assert_eq!(game, before);
        assert_eq!(playback.current_time(), 65_000_000_000);
    }
}

#[test]
fn backward_seek_rebuilds_from_the_start() {
    let mut playback = PlaybackController::new(recording());
    let mut game = GameState::lobby();
    playback.skip_to(110_000_000_000, &mut game).unwrap();
    assert_eq!(game.status, GameStatus::Finished);
    playback.skip_to(20_000_000_000, &mut game).unwrap();
    assert_eq!(game, GameState { status: GameStatus::Playing, connection_id: 7, clock: 20_000_000_000 });
    playback.skip_to(0, &mut game).unwrap();
    assert_eq!(game, GameState { status: GameStatus::Lobby, connection_id: 7, clock: 0 });
}

#[test]
fn simulate_advances_by_elapsed_and_stops_at_the_end() {
    let mut playback = PlaybackController::new(recording());
    let mut game = GameState::lobby();
    assert_eq!(playback.simulate(16, &mut game, false), Ok(()));
    assert_eq!(playback.current_time(), 16);
    assert_eq!(game, GameState { status: GameStatus::Lobby, connection_id: 7, clock: 16 });
    assert_eq!(playback.simulate(9_999_999_983, &mut game, false), Ok(()));
    assert_eq!(playback.current_time(), 9_999_999_999);
    assert_eq!(game.status, GameStatus::Lobby);
    assert_eq!(playback.simulate(1, &mut game, false), Ok(()));
    assert_eq!(playback.current_time(), 10_000_000_000);
    assert_eq!(game.status, GameStatus::Playing);
    assert_eq!(playback.simulate(200_000_000_000, &mut game, false), Ok(()));
    assert_eq!(playback.current_time(), 120_000_000_000);
    assert_eq!(game.status, GameStatus::Finished);
    assert_eq!(playback.simulate(u64::MAX, &mut game, false), Ok(()));
    assert_eq!(playback.current_time(), 120_000_000_000);
    assert_eq!(game.clock, 120_000_000_000);
}

#[test]
fn paused_simulate_is_a_no_op_unless_scrubbing() {
    let mut playback = PlaybackController::new(recording());
    let mut game = GameState::lobby();
    playback.simulate(30_000_000_000, &mut game, false).unwrap();
    playback.toggle_pause();
    assert!(playback.paused());
    let before = game;
    for _ in 0..5 {
        assert_eq!(playback.simulate(1_000_000_000, &mut game, false), Ok(()));
        assert_eq!(playback.current_time(), 30_000_000_000);
        assert_eq!(game, before);
    }
    assert_eq!(playback.simulate(40_000_000_000, &mut game, true), Ok(()));
    assert_eq!(playback.current_time(), 70_000_000_000);
    assert_eq!(game.connection_id, 9);
    assert!(playback.paused());
}

#[test]
fn pausing_does_not_hold_back_a_seek() {
    let mut playback = PlaybackController::new(recording());
    let mut game = GameState::lobby();
    playback.toggle_pause();
    assert_eq!(playback.skip_to(100_000_000_000, &mut game), Ok(()));
    assert_eq!(playback.current_time(), 100_000_000_000);
    assert_eq!(game.status, GameStatus::Finished);
    assert!(playback.paused());
    assert_eq!(playback.simulate(5_000_000_000, &mut game, false), Ok(()));
    assert_eq!(playback.current_time(), 100_000_000_000);
}

#[test]
fn toggling_pause_twice_restores_the_flag_and_keeps_the_cursor() {
    let mut playback = PlaybackController::new(recording());
    let mut game = GameState::lobby();
    playback.skip_to(33_000_000_000, &mut game).unwrap();
    playback.toggle_pause();
    assert!(playback.paused());
    assert_eq!(playback.current_time(), 33_000_000_000);
    playback.toggle_pause();
    assert!(!playback.paused());
    assert_eq!(playback.current_time(), 33_000_000_000);
}

#[test]
fn out_of_order_entry_fails_the_seek_and_changes_nothing() {
    let mut playback = PlaybackController::new(corrupt());
    let mut game = GameState::lobby();
    assert_eq!(playback.skip_to(14_999_000_000, &mut game), Ok(()));
    let before = game;
    assert_eq!(
        playback.skip_to(25_000_000_000, &mut game),
        Err(PlaybackError::OutOfOrder { index: 2 })
    );
    assert_eq!(playback.current_time(), 14_999_000_000);
    assert_eq!(game, before);
    assert_eq!(
        playback.simulate(10_000_000_000, &mut game, false),
        Err(PlaybackError::OutOfOrder { index: 2 })
    );
    assert_eq!(playback.current_time(), 14_999_000_000);
    assert_eq!(game, before);
    assert_eq!(playback.skip_to(19_999_000_000, &mut game), Ok(()));
    assert_eq!(playback.current_time(), 19_999_000_000);
    assert_eq!(playback.skip_to(2_000_000_000, &mut game), Ok(()));
    assert_eq!(game, GameState { status: GameStatus::Lobby, connection_id: 0, clock: 2_000_000_000 });
}

#[test]
fn entries_stamped_alike_are_taken_in_list_order() {
    let rec = RecordedGame {
        version: String::new(),
        duration: 10,
        entries: vec![
            snapshot(5, GameStatus::Playing),
            snapshot(5, GameStatus::Finished),
            snapshot(5, GameStatus::Lobby),
        ],
    };
    let mut playback = PlaybackController::new(rec);
    let mut game = GameState::lobby();
    playback.skip_to(4, &mut game).unwrap();
    assert_eq!(game.status, GameStatus::Lobby);
    playback.skip_to(5, &mut game).unwrap();
    assert_eq!(game.status, GameStatus::Lobby);
    assert_eq!(game.clock, 5);
}

#[test]
fn empty_recording_can_be_played() {
    let rec = RecordedGame { version: String::new(), duration: 0, entries: vec![] };
    let mut playback = PlaybackController::new(rec);
    let mut game = GameState::lobby();
    assert_eq!(playback.skip_to(1_000_000_000, &mut game), Ok(()));
    assert_eq!(playback.current_time(), 0);
    assert_eq!(playback.simulate(1_000_000_000, &mut game, false), Ok(()));
    assert_eq!(playback.current_time(), 0);
    assert_eq!(game, GameState::lobby());
}
