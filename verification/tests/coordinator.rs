use goobert::action::Action;
use goobert::config::Config;
use goobert::errors::GridError;
use goobert::grid::GridCoordinator;
use goobert::player::BackendCmd;
use goobert::render_pool::RenderTarget;

fn files(n: usize) -> Vec<String> {
    (0..n).map(|i| format!("/media/clip{}.mp4", i)).collect()
}

fn targets_sized(n: usize, width: u32, height: u32) -> Vec<Option<RenderTarget>> {
    (0..n)
        .map(|i| {
            Some(RenderTarget {
                fbo_id: (i + 1) as u32,
                texture_id: (100 + i) as u32,
                width,
                height,
            })
        })
        .collect()
}

fn targets(n: usize) -> Vec<Option<RenderTarget>> {
    targets_sized(n, 640, 480)
}

fn started(rows: u32, cols: u32, n_files: usize) -> GridCoordinator {
    let mut c = GridCoordinator::new(Config::default(), "/media".to_string());
    c.set_grid_size(rows, cols);
    let n = (rows * cols) as usize;
    let out = c.start(
        files(n_files),
        vec![true; n],
        vec![true; n],
        targets(n),
        640,
        480,
    );
    assert!(out.error.is_none());
    c
}

#[test]
fn start_two_by_two_builds_four_cells_and_stop_clears_them() {
    let mut c = GridCoordinator::new(Config::default(), "/media".to_string());
    c.set_grid_size(2, 2);
    let out = c.start(files(4), vec![true; 4], vec![true; 4], targets(4), 640, 480);
    assert!(out.error.is_none());
    assert_eq!(c.engines.len(), 4);
    assert_eq!(c.pool.len(), 4);
    assert!(c.panel.is_running);
    // Cell (0,0) is auto-selected.
    assert_eq!(c.selected_row, Some(0));
    assert_eq!(c.selected_col, Some(0));
    assert!(c.engines[0].is_selected());
    assert!(!c.engines[1].is_selected());
    // Each live cell is brought up with load, volume, play.
    for cell in &out.cell_cmds {
        assert_eq!(cell.len(), 3);
        assert!(matches!(cell[0], BackendCmd::LoadFile(_)));
        assert_eq!(cell[1], BackendCmd::SetVolume(30));
        assert_eq!(cell[2], BackendCmd::Play);
    }
    let stopped = c.stop();
    assert_eq!(c.engines.len(), 0);
    assert_eq!(c.pool.len(), 0);
    assert!(!c.panel.is_running);
    assert_eq!(c.selected_row, None);
    assert_eq!(stopped.released.len(), 4);
    assert_eq!(stopped.cmds, vec![Some(BackendCmd::Stop); 4]);
}

#[test]
fn start_with_no_files_reports_empty_media_set() {
    let mut c = GridCoordinator::new(Config::default(), "/media".to_string());
    c.set_grid_size(2, 2);
    let out = c.start(Vec::new(), vec![true; 4], vec![true; 4], targets(4), 640, 480);
    assert_eq!(out.error, Some(GridError::EmptyMediaSet));
    assert_eq!(c.engines.len(), 0);
    assert!(!c.panel.is_running);
    assert!(c.panel.log_message.ends_with("No media files found!"));
}

#[test]
fn a_failed_cell_is_dead_but_its_siblings_play() {
    let mut c = GridCoordinator::new(Config::default(), "/media".to_string());
    c.set_grid_size(1, 3);
    let out = c.start(
        files(2),
        vec![true, false, true],
        vec![true, true, true],
        targets(3),
        640,
        480,
    );
    assert!(out.error.is_none());
    assert_eq!(c.engines.len(), 3);
    assert!(c.engines[0].alive);
    assert!(!c.engines[1].alive);
    assert!(c.engines[2].alive);
    assert!(out.cell_cmds[1].is_empty());
    assert_eq!(out.cell_cmds[0].len(), 3);
    assert_eq!(out.cell_cmds[2].len(), 3);
    assert!(c.engines[1].playlist.is_empty());
    assert_eq!(c.engines[0].playlist.len(), 2);
}

#[test]
fn each_cell_gets_its_own_shuffled_copy() {
    let c = started(2, 2, 7);
    for e in &c.engines {
        let mut sorted = e.playlist.clone();
        sorted.sort();
        assert_eq!(sorted, files(7));
        assert_eq!(e.cursor, 0);
        assert_eq!(e.volume, 30);
    }
}

#[test]
fn next_all_skips_the_looping_cell() {
    let mut c = started(1, 2, 3);
    // Enable loop on the selected cell (0,0).
    let cmds = c.handle_action(Action::ToggleLoop);
    assert_eq!(cmds[0], Some(BackendCmd::SetLoop(true)));
    assert_eq!(cmds[1], None);
    let cmds = c.handle_action(Action::NextAll);
    // Only (0,1) advances.
    assert_eq!(c.engines[0].cursor, 0);
    assert_eq!(c.engines[1].cursor, 1);
    assert_eq!(cmds[0], None);
    assert!(matches!(cmds[1], Some(BackendCmd::LoadFile(_))));
}

#[test]
fn navigation_wraps_on_both_axes() {
    let mut c = started(2, 3, 4);
    assert_eq!((c.selected_row, c.selected_col), (Some(0), Some(0)));
    c.handle_action(Action::NavigateLeft);
    assert_eq!((c.selected_row, c.selected_col), (Some(0), Some(2)));
    c.handle_action(Action::NavigateUp);
    assert_eq!((c.selected_row, c.selected_col), (Some(1), Some(2)));
    c.handle_action(Action::NavigateRight);
    assert_eq!((c.selected_row, c.selected_col), (Some(1), Some(0)));
    c.handle_action(Action::NavigateDown);
    assert_eq!((c.selected_row, c.selected_col), (Some(0), Some(0)));
    // The selected engine's flag follows the selection.
    assert!(c.engines[0].is_selected());
    assert!(!c.engines[5].is_selected());
}

#[test]
fn volume_steps_never_leave_the_range() {
    let mut c = started(1, 1, 1);
    c.panel.volume = 50;
    c.handle_action(Action::VolumeUp);
    assert_eq!(c.panel.volume, 55);
    assert_eq!(c.engines[0].volume, 55);
    c.panel.volume = 98;
    c.handle_action(Action::VolumeUp);
    assert_eq!(c.panel.volume, 100);
    c.handle_action(Action::VolumeUp);
    assert_eq!(c.panel.volume, 100);
    c.panel.volume = 2;
    let cmds = c.handle_action(Action::VolumeDown);
    assert_eq!(c.panel.volume, 0);
    assert_eq!(cmds[0], Some(BackendCmd::SetVolume(0)));
    c.handle_action(Action::VolumeDown);
    assert_eq!(c.panel.volume, 0);
    assert!(c.panel.log_message.ends_with("Volume: 0%"));
}

#[test]
fn broadcast_actions_reach_every_live_cell() {
    let mut c = started(2, 2, 2);
    let cmds = c.handle_action(Action::PauseAll);
    assert_eq!(cmds, vec![Some(BackendCmd::TogglePause); 4]);
    let cmds = c.handle_action(Action::MuteAll);
    assert_eq!(cmds, vec![Some(BackendCmd::SetMute(true)); 4]);
    let cmds = c.handle_action(Action::PrevAll);
    for c in &cmds {
        assert!(matches!(c, Some(BackendCmd::LoadFile(_))));
    }
}

#[test]
fn selected_cell_actions_reach_only_the_selection() {
    let mut c = started(2, 2, 2);
    c.handle_action(Action::NavigateRight);
    let cmds = c.handle_action(Action::SeekForward);
    assert_eq!(cmds[0], None);
    assert_eq!(cmds[1], Some(BackendCmd::SeekRelativeMs(5000)));
    let cmds = c.handle_action(Action::SeekBackward);
    assert_eq!(cmds[1], Some(BackendCmd::SeekRelativeMs(-5000)));
    let cmds = c.handle_action(Action::FrameStepForward);
    assert_eq!(cmds[1], Some(BackendCmd::FrameStep));
    let cmds = c.handle_action(Action::FrameStepBackward);
    assert_eq!(cmds[1], Some(BackendCmd::FrameBackStep));
    let cmds = c.handle_action(Action::ZoomIn);
    assert_eq!(cmds[1], Some(BackendCmd::SetZoomTenths(1)));
    let cmds = c.handle_action(Action::Rotate);
    assert_eq!(cmds[1], Some(BackendCmd::SetRotation(90)));
    let cmds = c.handle_action(Action::Screenshot);
    assert_eq!(cmds[1], Some(BackendCmd::Screenshot));
    assert!(c.panel.log_message.ends_with("Screenshot taken"));
}

#[test]
fn shuffle_then_next_advances_non_looping_cells() {
    let mut c = started(1, 2, 4);
    let cmds = c.handle_action(Action::ShuffleThenNextAll);
    assert_eq!(c.engines[0].cursor, 1);
    assert_eq!(c.engines[1].cursor, 1);
    assert!(matches!(cmds[0], Some(BackendCmd::LoadFile(_))));
}

#[test]
fn fullscreen_flags() {
    let mut c = started(2, 2, 1);
    c.handle_action(Action::FullscreenGlobal);
    assert!(c.is_fullscreen);
    c.handle_action(Action::FullscreenSelected);
    assert!(c.is_tile_fullscreen);
    assert_eq!(c.fullscreen_cell, Some((0, 0)));
    assert!(!c.cell_visible(0, 1));
    assert!(c.cell_visible(0, 0));
    c.handle_action(Action::ExitFullscreen);
    assert!(!c.is_fullscreen);
    assert!(!c.is_tile_fullscreen);
    assert_eq!(c.fullscreen_cell, None);
    assert!(c.cell_visible(0, 1));
}

#[test]
fn restart_releases_the_old_targets() {
    let mut c = started(2, 2, 2);
    let out = c.start(
        files(2),
        vec![true; 4],
        vec![true; 4],
        targets_sized(4, 800, 600),
        800,
        600,
    );
    assert!(out.error.is_none());
    assert_eq!(out.released.len(), 4);
    assert_eq!(out.stop_cmds, vec![Some(BackendCmd::Stop); 4]);
    assert_eq!(c.pool.len(), 4);
    assert_eq!(c.pool.target(0).unwrap().width, 800);
}

#[test]
fn pool_accessors_answer_per_slot() {
    let c = started(1, 2, 1);
    assert_eq!(c.pool.fbo_id(0), Some(1));
    assert_eq!(c.pool.display_handle(1), Some(101));
    assert_eq!(c.pool.fbo_id(5), None);
    assert_eq!(c.pool.target(2), None);
}

#[test]
fn grid_error_descriptions() {
    assert_eq!(
        GridError::EmptyMediaSet.describe(),
        "No media files found!"
    );
    assert_eq!(
        GridError::BackendInitError.describe(),
        "playback backend failed to start"
    );
    assert_eq!(
        GridError::RenderTargetError.describe(),
        "render target unavailable"
    );
    assert_eq!(
        GridError::CommandRejected.describe(),
        "command rejected by backend"
    );
}
