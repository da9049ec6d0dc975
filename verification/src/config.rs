//! Configuration values handed to the engines and the coordinator at
//! construction time. Durations are held in milliseconds and the skip
//! fraction in permille, so every field is a plain integer, bool or string.
//!
//! Reading and writing the on-disk configuration file is glue around the
//! library and stays outside it; these types only carry the values.

use vstd::prelude::*;

verus! {

/// Playback options applied to every backend instance when it is built.
#[derive(Debug, Clone)]
pub struct PlaybackConfig {
    pub loop_count: u32,
    pub default_volume: u32,
    pub image_display_duration_ms: u64,
}

/// Initial grid topology.
#[derive(Debug, Clone)]
pub struct GridConfig {
    pub default_rows: u32,
    pub default_cols: u32,
}

/// Where media is looked for and where screenshots are written.
#[derive(Debug, Clone)]
pub struct PathsConfig {
    pub default_media_path: String,
    pub screenshot_path: String,
}

/// The skip-once policy: when enabled, the first load of each file seeks to
/// `duration * skip_permille / 1000`.
#[derive(Debug, Clone)]
pub struct SkipperConfig {
    pub enabled: bool,
    pub skip_permille: u32,
}

/// How far a relative seek moves.
#[derive(Debug, Clone)]
pub struct SeekConfig {
    pub amount_seconds: u32,
}

/// The whole configuration, built once at startup and passed by reference.
#[derive(Debug, Clone)]
pub struct Config {
    pub playback: PlaybackConfig,
    pub grid: GridConfig,
    pub paths: PathsConfig,
    pub skipper: SkipperConfig,
    pub seek: SeekConfig,
}

pub fn default_loop_count() -> (r: u32)
    ensures
        r == 5u32,
{
    5
}

pub fn default_volume() -> (r: u32)
    ensures
        r == 30u32,
{
    30
}

pub fn default_image_duration_ms() -> (r: u64)
    ensures
        r == 2500u64,
{
    2500
}

pub fn default_rows() -> (r: u32)
    ensures
        r == 3u32,
{
    3
}

pub fn default_cols() -> (r: u32)
    ensures
        r == 3u32,
{
    3
}

pub fn default_skip_permille() -> (r: u32)
    ensures
        r == 330u32,
{
    330
}

pub fn default_seek_amount() -> (r: u32)
    ensures
        r == 30u32,
{
    30
}

impl Default for PlaybackConfig {
    fn default() -> (r: Self)
        ensures
            r.loop_count == 5u32,
            r.default_volume == 30u32,
            r.image_display_duration_ms == 2500u64,
    {
        PlaybackConfig {
            loop_count: default_loop_count(),
            default_volume: default_volume(),
            image_display_duration_ms: default_image_duration_ms(),
        }
    }
}

impl Default for GridConfig {
    fn default() -> (r: Self)
        ensures
            r.default_rows == 3u32,
            r.default_cols == 3u32,
    {
        GridConfig { default_rows: default_rows(), default_cols: default_cols() }
    }
}

impl Default for PathsConfig {
    fn default() -> (r: Self)
        ensures
            r.default_media_path@ == "."@,
            r.screenshot_path@ == "."@,
    {
        PathsConfig {
            default_media_path: String::from_str("."),
            screenshot_path: String::from_str("."),
        }
    }
}

impl Default for SkipperConfig {
    fn default() -> (r: Self)
        ensures
            !r.enabled,
            r.skip_permille == 330u32,
    {
        SkipperConfig { enabled: false, skip_permille: default_skip_permille() }
    }
}

impl Default for SeekConfig {
    fn default() -> (r: Self)
        ensures
            r.amount_seconds == 30u32,
    {
        SeekConfig { amount_seconds: default_seek_amount() }
    }
}

impl Default for Config {
    fn default() -> (r: Self)
        ensures
            r.playback.loop_count == 5u32,
            r.playback.default_volume == 30u32,
            r.playback.image_display_duration_ms == 2500u64,
            r.grid.default_rows == 3u32,
            r.grid.default_cols == 3u32,
            r.paths.default_media_path@ == "."@,
            r.paths.screenshot_path@ == "."@,
            !r.skipper.enabled,
            r.skipper.skip_permille == 330u32,
            r.seek.amount_seconds == 30u32,
    {
        Config {
            playback: PlaybackConfig::default(),
            grid: GridConfig::default(),
            paths: PathsConfig::default(),
            skipper: SkipperConfig::default(),
            seek: SeekConfig::default(),
        }
    }
}

} // verus!
