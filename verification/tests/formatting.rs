use goobert::config::{Config, GridConfig, PathsConfig, PlaybackConfig, SeekConfig, SkipperConfig};
use goobert::panel::{ControlPanel, ControlPanelResponse};
use goobert::render_pool::flip_rows;
use goobert::text::{display_name, format_time, u64_dec, u64_dec_pad2};

#[test]
fn decimal_rendering() {
    assert_eq!(u64_dec(0), "0");
    assert_eq!(u64_dec(7), "7");
    assert_eq!(u64_dec(10), "10");
    assert_eq!(u64_dec(65535), "65535");
    assert_eq!(u64_dec_pad2(3), "03");
    assert_eq!(u64_dec_pad2(42), "42");
    assert_eq!(u64_dec_pad2(123), "123");
}

#[test]
fn clock_formatting() {
    assert_eq!(format_time(-1), "--:--");
    assert_eq!(format_time(0), "00:00");
    assert_eq!(format_time(59), "00:59");
    assert_eq!(format_time(61), "01:01");
    assert_eq!(format_time(3599), "59:59");
    assert_eq!(format_time(3600), "1:00:00");
    assert_eq!(format_time(3661), "1:01:01");
    assert_eq!(format_time(36610), "10:10:10");
}

#[test]
fn long_names_are_cut_with_an_ellipsis() {
    assert_eq!(display_name("short.mp4"), "short.mp4");
    let name = "a_very_long_video_file_name_indeed.mp4";
    let cut = display_name(name);
    assert_eq!(cut.len(), 30);
    assert_eq!(cut, "a_very_long_video_file_name...");
    let exactly30 = "123456789012345678901234567890";
    assert_eq!(display_name(exactly30), exactly30);
}

#[test]
fn flip_rows_reverses_row_order() {
    // Two rows of three bytes each.
    let pixels = vec![1u8, 2, 3, 4, 5, 6];
    let flipped = flip_rows(&pixels, 3, 2);
    assert_eq!(flipped, vec![4, 5, 6, 1, 2, 3]);
    // A single row is unchanged.
    assert_eq!(flip_rows(&pixels, 6, 1), pixels);
    // An empty buffer stays empty.
    assert_eq!(flip_rows(&Vec::new(), 0, 0), Vec::<u8>::new());
}

#[test]
fn panel_log_carries_a_timestamp() {
    let mut p = ControlPanel::new("/media".to_string(), 3, 3, 30);
    assert_eq!(p.log_message, "Ready");
    p.log("hello");
    // "[HH:MM:SS] hello"
    assert_eq!(p.log_message.len(), "hello".len() + 11);
    assert!(p.log_message.starts_with('['));
    assert!(p.log_message.ends_with("] hello"));
    assert_eq!(&p.log_message[3..4], ":");
    assert_eq!(&p.log_message[6..7], ":");
}

#[test]
fn panel_response_defaults_to_nothing() {
    let r = ControlPanelResponse::default();
    assert!(!r.start && !r.stop && !r.fullscreen && !r.play_pause);
    assert!(!r.next && !r.prev && !r.shuffle && !r.mute);
    assert_eq!(r.volume_changed, None);
}

#[test]
fn config_defaults() {
    let c = Config::default();
    assert_eq!(c.playback.loop_count, 5);
    assert_eq!(c.playback.default_volume, 30);
    assert_eq!(c.playback.image_display_duration_ms, 2500);
    assert_eq!(c.grid.default_rows, 3);
    assert_eq!(c.grid.default_cols, 3);
    assert_eq!(c.paths.default_media_path, ".");
    assert_eq!(c.paths.screenshot_path, ".");
    assert!(!c.skipper.enabled);
    assert_eq!(c.skipper.skip_permille, 330);
    assert_eq!(c.seek.amount_seconds, 30);
    let _ = PlaybackConfig::default();
    let _ = GridConfig::default();
    let _ = PathsConfig::default();
    let _ = SkipperConfig::default();
    let _ = SeekConfig::default();
}
