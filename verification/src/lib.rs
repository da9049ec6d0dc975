//! Core coordination layer of a video-wall player: per-cell playback engines
//! with playlist cursors and a skip-once policy, a render-target pool whose
//! GPU handles are tracked as plain records, a grid coordinator that routes
//! actions and drives the update/render tick, and the pure text formatting
//! the status panel shows.
//!
//! Everything that touches a window, the GPU or the playback backend itself
//! lives outside this crate; the library only decides, and hands back the
//! commands to perform.

pub mod action;
pub mod config;
pub mod errors;
pub mod file_scanner;
pub mod grid;
pub mod panel;
pub mod player;
pub mod render_pool;
pub mod text;
