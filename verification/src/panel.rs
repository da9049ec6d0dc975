//! The control panel's state: grid size, source directory, master volume,
//! the running flag, and the two status strings. The widgets that edit and
//! show these live outside the library; they hand back a
//! `ControlPanelResponse` saying which buttons were pressed.

use vstd::prelude::*;

verus! {

pub struct ControlPanel {
    pub source_dir: String,
    pub rows: usize,
    pub cols: usize,
    pub volume: i64,
    pub is_running: bool,
    pub selected_path: String,
    pub log_message: String,
}

/// What one pass over the panel's widgets asked for.
pub struct ControlPanelResponse {
    pub start: bool,
    pub stop: bool,
    pub fullscreen: bool,
    pub play_pause: bool,
    pub next: bool,
    pub prev: bool,
    pub shuffle: bool,
    pub mute: bool,
    pub volume_changed: Option<i64>,
}

impl Default for ControlPanelResponse {
    fn default() -> (r: Self)
        ensures
            !r.start,
            !r.stop,
            !r.fullscreen,
            !r.play_pause,
            !r.next,
            !r.prev,
            !r.shuffle,
            !r.mute,
            r.volume_changed is None,
    {
        ControlPanelResponse {
            start: false,
            stop: false,
            fullscreen: false,
            play_pause: false,
            next: false,
            prev: false,
            shuffle: false,
            mute: false,
            volume_changed: None,
        }
    }
}

/// Relies on chrono's `Local::now` and its `%H:%M:%S` formatting: hour,
/// minute and second as two zero-padded digits each, colon-separated, so
/// always eight characters. Which eight depends on the clock.
#[verifier::external_body]
fn local_time_hms() -> (r: String)
    ensures
        r@.len() == 8,
{
    chrono::Local::now().format("%H:%M:%S").to_string()
}

impl ControlPanel {
    pub fn new(source_dir: String, rows: usize, cols: usize, volume: i64) -> (p: Self)
        ensures
            p.source_dir == source_dir,
            p.rows == rows,
            p.cols == cols,
            p.volume == volume,
            !p.is_running,
            p.selected_path@ == Seq::<char>::empty(),
            p.log_message@ == "Ready"@,
    {
        ControlPanel {
            source_dir,
            rows,
            cols,
            volume,
            is_running: false,
            selected_path: String::new(),
            log_message: String::from_str("Ready"),
        }
    }

    /// Replaces the status line with the message behind a `[HH:MM:SS]`
    /// stamp of the wall clock.
    pub fn log(&mut self, message: &str)
        ensures
            exists|stamp: Seq<char>|
                stamp.len() == 8 && final(self).log_message@ == seq!['['] + stamp + seq![']', ' ']
                    + message@,
            *final(self) == (ControlPanel { log_message: final(self).log_message, ..*old(self) }),
    {
        let stamp = local_time_hms();
        let mut line = String::from_str("[");
        line.append(stamp.as_str());
        line.append("] ");
        line.append(message);
        proof {
            reveal_strlit("[");
            reveal_strlit("] ");
            assert("["@ =~= seq!['[']);
            assert("] "@ =~= seq![']', ' ']);
        }
        self.log_message = line;
    }
}

} // verus!
