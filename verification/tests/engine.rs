use music_player::command::{AudioAction, CompletionAction, MusicPlayer, PlayerCommand};
use music_player::track::Song;

fn song(title: &str, duration: u64, path: &str) -> Song {
    Song {
        title: title.to_string(),
        artist: String::new(),
        album: String::new(),
        duration,
        date: String::new(),
        playing: false,
        path: path.to_string(),
    }
}

fn three_track_player() -> MusicPlayer {
    let mut p = MusicPlayer::new();
    p.load(vec![
        song("A", 10, "lib/a.mp3"),
        song("B", 5, "lib/b.mp3"),
        song("C", 8, "lib/c.mp3"),
    ]);
    p
}

#[test]
fn new_player_is_stopped_and_empty() {
    let p = MusicPlayer::new();
    assert_eq!(p.songs.len(), 0);
    assert_eq!(p.current_index, 0);
    assert!(!p.loop_enabled);
    let mut p = p;
    assert!(matches!(p.play(), AudioAction::Stay));
}

#[test]
fn play_starts_current_track() {
    let mut p = three_track_player();
    let a = p.play();
    match a {
        AudioAction::Start { song } => {
            assert_eq!(song.title, "A");
            assert_eq!(song.duration, 10);
            assert_eq!(song.path, "lib/a.mp3");
        }
        other => panic!("expected a start action, got {:?}", other),
    }
}

#[test]
fn next_wraps_around_whole_playlist() {
    let mut p = three_track_player();
    let n = p.songs.len();
    let start = p.current_index;
    let mut seen = Vec::new();
    for _ in 0..n {
        p.next();
        seen.push(p.current_index);
    }
    assert_eq!(seen, vec![1, 2, 0]);
    assert_eq!(p.current_index, start);
}

#[test]
fn previous_at_zero_wraps_to_last() {
    let mut p = three_track_player();
    assert_eq!(p.current_index, 0);
    p.previous();
    assert_eq!(p.current_index, 2);
}

#[test]
fn previous_inverts_next() {
    let mut p = three_track_player();
    p.select(1);
    p.next();
    p.previous();
    assert_eq!(p.current_index, 1);
    p.previous();
    p.next();
    assert_eq!(p.current_index, 1);
}

#[test]
fn pause_then_play_resumes_without_reopening() {
    let mut p = three_track_player();
    let mut appends = 0;
    match p.play() {
        AudioAction::Start { .. } => appends += 1,
        other => panic!("expected a start action, got {:?}", other),
    }
    assert!(matches!(p.pause(), AudioAction::PauseOutput));
    let resumed = p.play();
    if let AudioAction::Start { .. } = resumed {
        appends += 1;
    }
    assert!(matches!(resumed, AudioAction::Resume));
    assert_eq!(appends, 1);
    assert_eq!(p.current_index, 0);
}

#[test]
fn loop_on_replays_same_track() {
    let mut p = three_track_player();
    let started = match p.play() {
        AudioAction::Start { song } => song,
        other => panic!("expected a start action, got {:?}", other),
    };
    p.toggle_loop(true);
    assert_eq!(p.handle_completion(), CompletionAction::Replay);
    assert_eq!(p.current_index, 0);
    assert_eq!(p.songs[p.current_index].path, started.path);
}

#[test]
fn loop_off_advances_by_one() {
    let mut p = three_track_player();
    p.play();
    p.toggle_loop(false);
    assert_eq!(p.handle_completion(), CompletionAction::EmitNext);
    let a = p.apply(PlayerCommand::Next);
    assert_eq!(p.current_index, 1);
    match a {
        AudioAction::Start { song } => assert_eq!(song.title, "B"),
        other => panic!("expected a start action, got {:?}", other),
    }
}

#[test]
fn select_out_of_range_changes_nothing() {
    let mut p = three_track_player();
    p.select(1);
    assert_eq!(p.current_index, 1);
    assert!(matches!(p.select(3), AudioAction::Stay));
    assert_eq!(p.current_index, 1);
    assert!(matches!(p.select(-1), AudioAction::Stay));
    assert_eq!(p.current_index, 1);
    assert!(matches!(p.select(i32::MAX), AudioAction::Stay));
    assert_eq!(p.current_index, 1);
}

#[test]
fn stop_sets_stopped_and_stops_output() {
    let mut p = three_track_player();
    p.play();
    assert!(matches!(p.stop(), AudioAction::StopOutput));
    let a = p.play();
    assert!(matches!(a, AudioAction::Start { .. }));
}

#[test]
fn load_keeps_index_and_state() {
    let mut p = three_track_player();
    p.select(2);
    assert_eq!(p.current_index, 2);
    p.load(vec![song("Z", 1, "z.ogg")]);
    assert_eq!(p.songs.len(), 1);
    assert_eq!(p.current_index, 2);
    // The stale index is rejected rather than crashing.
    assert!(matches!(p.stop(), AudioAction::StopOutput));
    assert!(matches!(p.play(), AudioAction::Stay));
}

#[test]
fn empty_playlist_operations_are_noops() {
    let mut p = MusicPlayer::new();
    assert!(matches!(p.play(), AudioAction::Stay));
    assert!(matches!(p.next(), AudioAction::Stay));
    assert!(matches!(p.previous(), AudioAction::Stay));
    assert!(matches!(p.select(0), AudioAction::Stay));
    assert_eq!(p.current_index, 0);
}

#[test]
fn toggle_loop_is_an_absolute_set() {
    let mut p = MusicPlayer::new();
    p.toggle_loop(true);
    assert!(p.loop_enabled);
    p.toggle_loop(true);
    assert!(p.loop_enabled);
    p.toggle_loop(false);
    assert!(!p.loop_enabled);
}

#[test]
fn end_to_end_scenario() {
    // playlist = [A(10s), B(5s), C(8s)], loop off, index 0.
    let mut p = three_track_player();
    p.toggle_loop(false);

    // Play: engine starts A and reports duration 10 for the display.
    let a = p.apply(PlayerCommand::Play);
    let ui_duration = match a {
        AudioAction::Start { ref song } => song.duration,
        ref other => panic!("expected a start action, got {:?}", other),
    };
    assert_eq!(ui_duration, 10);

    // A finishes: the watcher emits an advance command.
    assert_eq!(p.handle_completion(), CompletionAction::EmitNext);
    let a = p.apply(PlayerCommand::Next);
    assert_eq!(p.current_index, 1);
    match a {
        AudioAction::Start { song } => {
            assert_eq!(song.title, "B");
            assert_eq!(song.duration, 5);
        }
        other => panic!("expected a start action, got {:?}", other),
    }

    // Previous: back to A.
    let a = p.apply(PlayerCommand::Previous);
    assert_eq!(p.current_index, 0);
    match a {
        AudioAction::Start { song } => assert_eq!(song.title, "A"),
        other => panic!("expected a start action, got {:?}", other),
    }
}

#[test]
fn apply_covers_every_command() {
    let mut p = MusicPlayer::new();
    assert!(matches!(
        p.apply(PlayerCommand::LoadSongs(vec![song("A", 10, "a.mp3")])),
        AudioAction::Stay
    ));
    assert_eq!(p.songs.len(), 1);
    assert!(matches!(p.apply(PlayerCommand::Play), AudioAction::Start { .. }));
    assert!(matches!(p.apply(PlayerCommand::Pause), AudioAction::PauseOutput));
    assert!(matches!(p.apply(PlayerCommand::Play), AudioAction::Resume));
    assert!(matches!(p.apply(PlayerCommand::Stop), AudioAction::StopOutput));
    assert!(matches!(
        p.apply(PlayerCommand::ToggleLoop { enabled: true }),
        AudioAction::Stay
    ));
    assert!(p.loop_enabled);
    assert!(matches!(p.apply(PlayerCommand::Next), AudioAction::Start { .. }));
    assert!(matches!(p.apply(PlayerCommand::Previous), AudioAction::Start { .. }));
    assert!(matches!(p.apply(PlayerCommand::Select { u: 0 }), AudioAction::Start { .. }));
    assert!(matches!(p.apply(PlayerCommand::Select { u: 9 }), AudioAction::Stay));
}
