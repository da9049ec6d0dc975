use goobert::config::Config;
use goobert::player::{BackendCmd, Direction, PlaybackEngine, PlaybackEvent, PlayerState};

fn live_engine(skip_enabled: bool) -> PlaybackEngine {
    let mut config = Config::default();
    config.skipper.enabled = skip_enabled;
    let mut e = PlaybackEngine::new(0, 0, &config);
    e.initialize(true).unwrap();
    e
}

fn playlist(names: &[&str]) -> Vec<String> {
    names.iter().map(|n| n.to_string()).collect()
}

#[test]
fn load_playlist_loads_first_file() {
    let mut e = live_engine(false);
    let cmd = e.load_playlist(playlist(&["a.mp4", "b.mp4"]));
    assert_eq!(cmd, Some(BackendCmd::LoadFile("a.mp4".to_string())));
    let none = e.load_playlist(Vec::new());
    assert_eq!(none, None);
}

#[test]
fn advance_round_trip_returns_to_start() {
    let mut e = live_engine(false);
    e.load_playlist(playlist(&["a.mp4", "b.mp4", "c.mp4"]));
    assert_eq!(e.cursor, 0);
    e.advance(Direction::Next);
    assert_eq!(e.cursor, 1);
    e.advance(Direction::Prev);
    assert_eq!(e.cursor, 0);
    // Wraparound at both ends.
    let cmd = e.advance(Direction::Prev);
    assert_eq!(e.cursor, 2);
    assert_eq!(cmd, Some(BackendCmd::LoadFile("c.mp4".to_string())));
    e.advance(Direction::Next);
    assert_eq!(e.cursor, 0);
}

#[test]
fn advance_is_a_no_op_on_empty_playlist() {
    let mut e = live_engine(false);
    assert_eq!(e.advance(Direction::Next), None);
    assert_eq!(e.cursor, 0);
    assert_eq!(e.advance(Direction::Prev), None);
    assert_eq!(e.cursor, 0);
}

#[test]
fn dead_engine_ignores_everything() {
    let mut config = Config::default();
    config.skipper.enabled = true;
    let mut e = PlaybackEngine::new(1, 2, &config);
    assert_eq!(
        e.initialize(false),
        Err(goobert::errors::GridError::BackendInitError)
    );
    assert_eq!(e.load_playlist(playlist(&["a.mp4"])), None);
    assert_eq!(e.advance(Direction::Next), None);
    assert_eq!(e.set_volume(80), None);
    assert_eq!(e.play(), None);
    assert_eq!(e.stop(), None);
    let cmds = e.process_events(&vec![PlaybackEvent::FileLoaded], "a.mp4", 90000);
    assert!(cmds.is_empty());
}

#[test]
fn skip_once_fires_exactly_once_per_file() {
    let mut e = live_engine(true);
    e.load_playlist(playlist(&["a.mp4"]));
    // First load of a 90 s file with skip at 330 permille: one absolute
    // seek to 29.7 s.
    let cmds = e.process_events(&vec![PlaybackEvent::FileLoaded], "a.mp4", 90000);
    assert_eq!(cmds, vec![BackendCmd::SeekAbsoluteMs(29700)]);
    // The same file loaded again (for example because it loops): no
    // second seek.
    let cmds = e.process_events(&vec![PlaybackEvent::FileLoaded], "a.mp4", 90000);
    assert!(cmds.is_empty());
}

#[test]
fn skip_waits_for_other_files_but_not_twice() {
    let mut e = live_engine(true);
    e.load_playlist(playlist(&["a.mp4", "b.mp4"]));
    let first = e.process_events(&vec![PlaybackEvent::FileLoaded], "a.mp4", 60000);
    assert_eq!(first, vec![BackendCmd::SeekAbsoluteMs(19800)]);
    let other = e.process_events(&vec![PlaybackEvent::FileLoaded], "b.mp4", 10000);
    assert_eq!(other, vec![BackendCmd::SeekAbsoluteMs(3300)]);
    let again = e.process_events(&vec![PlaybackEvent::FileLoaded], "a.mp4", 60000);
    assert!(again.is_empty());
}

#[test]
fn skip_disabled_or_unknown_duration_seeks_nothing() {
    let mut e = live_engine(false);
    e.load_playlist(playlist(&["a.mp4"]));
    let cmds = e.process_events(&vec![PlaybackEvent::FileLoaded], "a.mp4", 90000);
    assert!(cmds.is_empty());
    let mut e = live_engine(true);
    e.load_playlist(playlist(&["a.mp4"]));
    // Unknown duration: the path is marked but no seek is issued, and a
    // later load with a known duration no longer seeks either.
    let cmds = e.process_events(&vec![PlaybackEvent::FileLoaded], "a.mp4", 0);
    assert!(cmds.is_empty());
    let cmds = e.process_events(&vec![PlaybackEvent::FileLoaded], "a.mp4", 90000);
    assert!(cmds.is_empty());
}

#[test]
fn repeated_events_collapse_to_one_action() {
    let mut e = live_engine(true);
    e.load_playlist(playlist(&["a.mp4", "b.mp4"]));
    let events = vec![
        PlaybackEvent::FileLoaded,
        PlaybackEvent::FileLoaded,
        PlaybackEvent::EndOfFile,
        PlaybackEvent::EndOfFile,
    ];
    let cmds = e.process_events(&events, "a.mp4", 90000);
    assert_eq!(
        cmds,
        vec![
            BackendCmd::SeekAbsoluteMs(29700),
            BackendCmd::LoadFile("b.mp4".to_string()),
        ]
    );
    assert_eq!(e.cursor, 1);
}

#[test]
fn end_of_file_advances() {
    let mut e = live_engine(false);
    e.load_playlist(playlist(&["a.mp4", "b.mp4"]));
    let cmds = e.process_events(&vec![PlaybackEvent::EndOfFile], "a.mp4", 90000);
    assert_eq!(cmds, vec![BackendCmd::LoadFile("b.mp4".to_string())]);
}

#[test]
fn volume_is_clamped() {
    let mut e = live_engine(false);
    assert_eq!(e.set_volume(-10), Some(BackendCmd::SetVolume(0)));
    assert_eq!(e.volume, 0);
    assert_eq!(e.set_volume(150), Some(BackendCmd::SetVolume(100)));
    assert_eq!(e.volume, 100);
    assert_eq!(e.set_volume(50), Some(BackendCmd::SetVolume(50)));
    assert_eq!(e.volume, 50);
}

#[test]
fn loop_mute_rotate_zoom_track_state() {
    let mut e = live_engine(false);
    assert_eq!(e.toggle_loop(), Some(BackendCmd::SetLoop(true)));
    assert!(e.is_loop_file());
    assert_eq!(e.toggle_loop(), Some(BackendCmd::SetLoop(false)));
    assert!(!e.is_loop_file());
    assert_eq!(e.toggle_mute(), Some(BackendCmd::SetMute(true)));
    assert_eq!(e.mute(), Some(BackendCmd::SetMute(true)));
    assert_eq!(e.unmute(), Some(BackendCmd::SetMute(false)));
    assert_eq!(e.rotate(), Some(BackendCmd::SetRotation(90)));
    assert_eq!(e.rotate(), Some(BackendCmd::SetRotation(180)));
    assert_eq!(e.rotate(), Some(BackendCmd::SetRotation(270)));
    assert_eq!(e.rotate(), Some(BackendCmd::SetRotation(0)));
    assert_eq!(e.zoom_in(), Some(BackendCmd::SetZoomTenths(1)));
    assert_eq!(e.zoom_out(), Some(BackendCmd::SetZoomTenths(0)));
    assert_eq!(e.zoom_out(), Some(BackendCmd::SetZoomTenths(-1)));
    assert_eq!(e.seek_relative(-3000), Some(BackendCmd::SeekRelativeMs(-3000)));
    assert_eq!(e.seek_absolute(12000), Some(BackendCmd::SeekAbsoluteMs(12000)));
    assert_eq!(e.frame_step(), Some(BackendCmd::FrameStep));
    assert_eq!(e.frame_back_step(), Some(BackendCmd::FrameBackStep));
    assert_eq!(e.screenshot(), Some(BackendCmd::Screenshot));
    assert_eq!(e.toggle_pause(), Some(BackendCmd::TogglePause));
    assert_eq!(e.pause(), Some(BackendCmd::Pause));
    assert_eq!(e.play(), Some(BackendCmd::Play));
}

#[test]
fn render_gate_obeys_backend_not_signal() {
    let mut e = live_engine(false);
    e.mark_render_context(true);
    assert!(e.has_render_context());
    // The frame-ready signal was set but the backend reports no pending
    // update: no draw.
    assert!(!e.render_gate(true, 0));
    assert!(e.render_gate(true, 1));
    assert!(e.render_gate(false, 4));
    // Without a render context nothing draws.
    let e2 = live_engine(false);
    assert!(!e2.render_gate(true, 1));
}

#[test]
fn snapshot_accessors() {
    let mut e = live_engine(false);
    let snap = PlayerState {
        path: "clip.mp4".to_string(),
        position_ms: 1500,
        duration_ms: 60000,
        paused: true,
        volume: 40,
        muted: false,
        loop_file: false,
        video_width: 1920,
        video_height: 1080,
    };
    e.apply_snapshot(snap.clone());
    assert_eq!(e.current_file(), "clip.mp4");
    assert_eq!(e.position_ms(), 1500);
    assert_eq!(e.duration_ms(), 60000);
    assert!(e.is_paused());
    assert_eq!(e.state(), &snap);
}

#[test]
fn update_playlist_path_replaces_matches() {
    let mut e = live_engine(false);
    e.load_playlist(playlist(&["a.mp4", "b.mp4", "a.mp4"]));
    e.update_playlist_path("a.mp4", "renamed.mp4");
    assert_eq!(
        e.playlist,
        playlist(&["renamed.mp4", "b.mp4", "renamed.mp4"])
    );
}

#[test]
fn shuffle_keeps_the_same_files() {
    let mut e = live_engine(false);
    let names = &["a.mp4", "b.mp4", "c.mp4", "d.mp4", "e.mp4"];
    e.load_playlist(playlist(names));
    e.shuffle();
    assert_eq!(e.cursor, 0);
    let mut sorted = e.playlist.clone();
    sorted.sort();
    assert_eq!(sorted, playlist(names));
}

#[test]
fn next_if_not_looping_respects_loop() {
    let mut e = live_engine(false);
    e.load_playlist(playlist(&["a.mp4", "b.mp4"]));
    e.toggle_loop();
    assert_eq!(e.next_if_not_looping(), None);
    assert_eq!(e.cursor, 0);
    e.toggle_loop();
    assert_eq!(
        e.next_if_not_looping(),
        Some(BackendCmd::LoadFile("b.mp4".to_string()))
    );
    assert_eq!(e.cursor, 1);
}

#[test]
fn cell_id_is_row_comma_col() {
    let config = Config::default();
    let e = PlaybackEngine::new(2, 13, &config);
    assert_eq!(e.cell_id(), "2,13");
}
