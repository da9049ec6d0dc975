//! The per-cell playback engine: an ordered playlist with a wrapping cursor,
//! the skip-once seek policy, and the tracked loop / mute / volume / zoom /
//! rotation state. The engine owns no backend; every method that would touch
//! one instead returns the `BackendCmd` values to perform, and the caller
//! hands back the drained backend events and polled state as plain values.

use vstd::prelude::*;
use crate::config::Config;
use crate::errors::GridError;
use rand::seq::SliceRandom;

verus! {

/// Which way the playlist cursor moves.
#[derive(Debug, Clone, Copy, PartialEq, Eq, Structural)]
pub enum Direction {
    Next,
    Prev,
}

/// A command for the playback backend, produced by the engine and performed
/// by whoever owns the backend instance. All are fire-and-forget: the
/// backend may reject one, and rejection is logged and ignored.
#[derive(Debug, Clone, PartialEq)]
pub enum BackendCmd {
    LoadFile(String),
    Play,
    Pause,
    TogglePause,
    Stop,
    SeekRelativeMs(i64),
    SeekAbsoluteMs(i64),
    FrameStep,
    FrameBackStep,
    SetVolume(i64),
    SetMute(bool),
    SetLoop(bool),
    SetRotation(u32),
    SetZoomTenths(i64),
    Screenshot,
}

/// An event drained from the backend's queue, reduced to the two kinds the
/// engine reacts to.
#[derive(Debug, Clone, Copy, PartialEq, Eq, Structural)]
pub enum PlaybackEvent {
    FileLoaded,
    EndOfFile,
}

/// A read-only snapshot of what the backend reports for one cell. Positions
/// and durations are in milliseconds; a negative value means the backend
/// knows none yet.
#[derive(Debug, Clone, PartialEq)]
pub struct PlayerState {
    pub path: String,
    pub position_ms: i64,
    pub duration_ms: i64,
    pub paused: bool,
    pub volume: i64,
    pub muted: bool,
    pub loop_file: bool,
    pub video_width: i64,
    pub video_height: i64,
}

impl Default for PlayerState {
    fn default() -> (r: Self)
        ensures
            r.path@ == Seq::<char>::empty(),
            r.position_ms == 0i64,
            r.duration_ms == 0i64,
            !r.paused,
            r.volume == 0i64,
            !r.muted,
            !r.loop_file,
            r.video_width == 0i64,
            r.video_height == 0i64,
    {
        PlayerState {
            path: String::new(),
            position_ms: 0,
            duration_ms: 0,
            paused: false,
            volume: 0,
            muted: false,
            loop_file: false,
            video_width: 0,
            video_height: 0,
        }
    }
}

/// The views of a sequence of path strings.
pub open spec fn path_views(v: Seq<String>) -> Seq<Seq<char>> {
    v.map_values(|s: String| s@)
}

/// The cursor after a forward step: one to the right, wrapping to the front.
pub open spec fn wrap_next(cursor: int, len: int) -> int {
    if cursor + 1 < len {
        cursor + 1
    } else {
        0
    }
}

/// The cursor after a backward step: one to the left, wrapping to the back.
pub open spec fn wrap_prev(cursor: int, len: int) -> int {
    if cursor == 0 {
        len - 1
    } else {
        cursor - 1
    }
}

/// The cursor after a step in the given direction.
pub open spec fn wrap_step(cursor: int, len: int, dir: Direction) -> int {
    match dir {
        Direction::Next => wrap_next(cursor, len),
        Direction::Prev => wrap_prev(cursor, len),
    }
}

/// A volume request is held to the stored range.
pub open spec fn clamp_volume(v: int) -> int {
    if v < 0 {
        0
    } else if v > 100 {
        100
    } else {
        v
    }
}

/// Where the skip-once policy seeks to: the given fraction of the duration,
/// in permille.
pub open spec fn skip_target(duration_ms: int, permille: int) -> int {
    duration_ms * permille / 1000
}

/// Whether a just-finished load makes the engine mark the path as seen:
/// skip must be enabled, the path known and not yet marked.
pub open spec fn marks_seen(e: PlaybackEngine, path: Seq<char>, loaded: bool) -> bool {
    loaded && e.alive && e.skip_enabled && path.len() > 0 && !path_views(e.seen@).contains(path)
}

/// One grid cell's playback engine.
pub struct PlaybackEngine {
    pub row: usize,
    pub col: usize,
    /// Whether the backend instance for this cell was constructed; a dead
    /// cell ignores every request.
    pub alive: bool,
    /// Whether the backend's render context exists, a precondition of
    /// drawing.
    pub render_ctx_ready: bool,
    pub selected: bool,
    pub playlist: Vec<String>,
    pub cursor: usize,
    /// Paths already skip-adjusted once; never skip the same file twice.
    pub seen: Vec<String>,
    pub loop_enabled: bool,
    pub muted: bool,
    pub volume: i64,
    pub rotation_degrees: u32,
    /// Zoom level in tenths; each zoom step moves it by one.
    pub zoom_tenths: i64,
    pub skip_enabled: bool,
    pub skip_permille: u32,
    pub state: PlayerState,
}

/// Relies on rand's `SliceRandom::shuffle` (a Fisher-Yates pass of in-place
/// swaps): the slice afterwards holds exactly the same elements, rearranged.
#[verifier::external_body]
pub(crate) fn shuffle_in_place(v: &mut Vec<String>)
    ensures
        final(v)@.len() == old(v)@.len(),
        path_views(final(v)@).to_multiset() == path_views(old(v)@).to_multiset(),
{
    v.shuffle(&mut rand::thread_rng());
}

/// Computes the skip-once seek target without overflow.
fn skip_target_ms(duration_ms: i64, permille: u32) -> (t: i64)
    requires
        duration_ms > 0,
        permille <= 1000,
    ensures
        t == skip_target(duration_ms as int, permille as int),
        0 <= t <= duration_ms,
{
    proof {
        assert((duration_ms as u128) * (permille as u128) <= (duration_ms as u128) * 1000)
            by (nonlinear_arith)
            requires
                duration_ms > 0,
                permille <= 1000,
        ;
    }
    let prod: u128 = (duration_ms as u128) * (permille as u128);
    let q: u128 = prod / 1000;
    proof {
        assert(prod == duration_ms * permille);
        assert(q <= duration_ms);
    }
    q as i64
}

impl PlaybackEngine {
    /// Structural validity: the cursor points into the playlist (or both are
    /// zero), volume and skip fraction sit in range, rotation is a right
    /// angle, and no path is marked seen twice.
    pub open spec fn wf(&self) -> bool {
        &&& self.cursor < self.playlist@.len() || (self.playlist@.len() == 0 && self.cursor
            == 0)
        &&& 0 <= self.volume <= 100
        &&& (self.rotation_degrees == 0 || self.rotation_degrees == 90 || self.rotation_degrees
            == 180 || self.rotation_degrees == 270)
        &&& self.skip_permille <= 1000
        &&& path_views(self.seen@).no_duplicates()
    }

    /// A fresh engine for the cell at `(row, col)`, configured but not yet
    /// attached to a backend.
    pub fn new(row: usize, col: usize, config: &Config) -> (e: Self)
        ensures
            e.wf(),
            e.row == row,
            e.col == col,
            !e.alive,
            !e.render_ctx_ready,
            !e.selected,
            e.playlist@.len() == 0,
            e.cursor == 0,
            e.seen@.len() == 0,
            !e.loop_enabled,
            !e.muted,
            e.volume == clamp_volume(config.playback.default_volume as int),
            e.rotation_degrees == 0,
            e.zoom_tenths == 0,
            e.skip_enabled == config.skipper.enabled,
            e.skip_permille == if config.skipper.skip_permille <= 1000 {
                config.skipper.skip_permille as int
            } else {
                1000
            },
            e.state.path@.len() == 0,
            e.state.position_ms == 0i64,
            e.state.duration_ms == 0i64,
            !e.state.paused,
    {
        let vol_u32: u32 = config.playback.default_volume;
        let volume: i64 = if vol_u32 > 100 {
            100
        } else {
            vol_u32 as i64
        };
        let permille: u32 = if config.skipper.skip_permille > 1000 {
            1000
        } else {
            config.skipper.skip_permille
        };
        PlaybackEngine {
            row,
            col,
            alive: false,
            render_ctx_ready: false,
            selected: false,
            playlist: Vec::new(),
            cursor: 0,
            seen: Vec::new(),
            loop_enabled: false,
            muted: false,
            volume,
            rotation_degrees: 0,
            zoom_tenths: 0,
            skip_enabled: config.skipper.enabled,
            skip_permille: permille,
            state: PlayerState::default(),
        }
    }

    /// Records whether the backend instance was constructed. A failure marks
    /// the cell dead without touching its siblings.
    pub fn initialize(&mut self, backend_ok: bool) -> (r: Result<(), GridError>)
        ensures
            *final(self) == (PlaybackEngine { alive: backend_ok, ..*old(self) }),
            backend_ok <==> r is Ok,
            !backend_ok ==> r == Result::<(), GridError>::Err(GridError::BackendInitError),
    {
        self.alive = backend_ok;
        if backend_ok {
            Ok(())
        } else {
            Err(GridError::BackendInitError)
        }
    }

    /// Records whether the backend's render context came up; once ready it
    /// stays ready, and a dead cell never becomes ready.
    pub fn mark_render_context(&mut self, ok: bool)
        ensures
            *final(self) == (PlaybackEngine {
                render_ctx_ready: old(self).render_ctx_ready || (old(self).alive && ok),
                ..*old(self)
            }),
    {
        if self.alive && ok {
            self.render_ctx_ready = true;
        }
    }

    pub fn has_render_context(&self) -> (r: bool)
        ensures
            r == self.render_ctx_ready,
    {
        self.render_ctx_ready
    }

    /// Whether the render phase should draw this cell now. The frame-ready
    /// signal is only a hint: the decision goes by what the backend's update
    /// check reported, so a set signal with no pending update draws nothing.
    pub fn render_gate(&self, signal_was_set: bool, update_flags: u64) -> (draw: bool)
        ensures
            draw == (self.alive && self.render_ctx_ready && update_flags != 0),
    {
        let _ = signal_was_set;
        self.alive && self.render_ctx_ready && update_flags != 0
    }

    /// Replaces the playlist and rewinds the cursor; the first file, if any,
    /// is loaded.
    pub fn load_playlist(&mut self, files: Vec<String>) -> (cmd: Option<BackendCmd>)
        requires
            old(self).wf(),
        ensures
            final(self).wf(),
            old(self).alive ==> *final(self) == (PlaybackEngine {
                playlist: files,
                cursor: 0,
                ..*old(self)
            }),
            old(self).alive && files@.len() > 0 ==> cmd == Some(
                BackendCmd::LoadFile(files@[0]),
            ),
            old(self).alive && files@.len() == 0 ==> cmd is None,
            !old(self).alive ==> *final(self) == *old(self) && cmd is None,
    {
        if !self.alive {
            return None;
        }
        self.playlist = files;
        self.cursor = 0;
        if self.playlist.len() > 0 {
            Some(BackendCmd::LoadFile(self.playlist[0].clone()))
        } else {
            None
        }
    }

    /// Moves the cursor one step with wraparound and loads the new current
    /// file; a dead cell or an empty playlist stays untouched.
    pub fn advance(&mut self, dir: Direction) -> (cmd: Option<BackendCmd>)
        requires
            old(self).wf(),
        ensures
            final(self).wf(),
            ({
                let len = old(self).playlist@.len() as int;
                let c2 = wrap_step(old(self).cursor as int, len, dir);
                if old(self).alive && len > 0 {
                    &&& final(self).cursor == c2
                    &&& *final(self) == (PlaybackEngine { cursor: c2 as usize, ..*old(self) })
                    &&& cmd == Some(BackendCmd::LoadFile(old(self).playlist@[c2]))
                } else {
                    &&& *final(self) == *old(self)
                    &&& cmd is None
                }
            }),
    {
        if !self.alive || self.playlist.len() == 0 {
            return None;
        }
        let len = self.playlist.len();
        self.cursor = match dir {
            Direction::Next => if self.cursor + 1 < len {
                self.cursor + 1
            } else {
                0
            },
            Direction::Prev => if self.cursor == 0 {
                len - 1
            } else {
                self.cursor - 1
            },
        };
        Some(BackendCmd::LoadFile(self.playlist[self.cursor].clone()))
    }

    /// Steps forward, used by the broadcast "next" only on cells that are
    /// not looping, so a looping cell is not disturbed.
    pub fn next_if_not_looping(&mut self) -> (cmd: Option<BackendCmd>)
        requires
            old(self).wf(),
        ensures
            final(self).wf(),
            ({
                let len = old(self).playlist@.len() as int;
                let c2 = wrap_next(old(self).cursor as int, len);
                if old(self).alive && !old(self).loop_enabled && len > 0 {
                    &&& final(self).cursor == c2
                    &&& *final(self) == (PlaybackEngine { cursor: c2 as usize, ..*old(self) })
                    &&& cmd == Some(BackendCmd::LoadFile(old(self).playlist@[c2]))
                } else {
                    &&& *final(self) == *old(self)
                    &&& cmd is None
                }
            }),
    {
        if self.alive && !self.loop_enabled {
            self.advance(Direction::Next)
        } else {
            None
        }
    }

    /// Rearranges the playlist at random; the cursor and everything else
    /// stay put, and no file appears or disappears.
    pub fn shuffle(&mut self)
        requires
            old(self).wf(),
        ensures
            final(self).wf(),
            final(self).playlist@.len() == old(self).playlist@.len(),
            path_views(final(self).playlist@).to_multiset() == path_views(
                old(self).playlist@,
            ).to_multiset(),
            final(self).cursor == old(self).cursor,
            final(self).seen == old(self).seen,
            final(self).alive == old(self).alive,
            final(self).row == old(self).row,
            final(self).col == old(self).col,
            final(self).render_ctx_ready == old(self).render_ctx_ready,
            final(self).selected == old(self).selected,
            final(self).loop_enabled == old(self).loop_enabled,
            final(self).muted == old(self).muted,
            final(self).volume == old(self).volume,
            final(self).rotation_degrees == old(self).rotation_degrees,
            final(self).zoom_tenths == old(self).zoom_tenths,
            final(self).skip_enabled == old(self).skip_enabled,
            final(self).skip_permille == old(self).skip_permille,
            final(self).state == old(self).state,
    {
        if self.alive {
            shuffle_in_place(&mut self.playlist);
        }
    }

    /// Stores the requested volume held to `[0, 100]` and forwards it.
    pub fn set_volume(&mut self, v: i64) -> (cmd: Option<BackendCmd>)
        ensures
            ({
                let c = clamp_volume(v as int);
                if old(self).alive {
                    &&& *final(self) == (PlaybackEngine { volume: c as i64, ..*old(self) })
                    &&& cmd == Some(BackendCmd::SetVolume(c as i64))
                } else {
                    &&& *final(self) == *old(self)
                    &&& cmd is None
                }
            }),
    {
        if !self.alive {
            return None;
        }
        let c: i64 = if v < 0 {
            0
        } else if v > 100 {
            100
        } else {
            v
        };
        self.volume = c;
        Some(BackendCmd::SetVolume(c))
    }

    /// Flips the tracked mute flag and forwards the new value.
    pub fn toggle_mute(&mut self) -> (cmd: Option<BackendCmd>)
        ensures
            if old(self).alive {
                *final(self) == (PlaybackEngine { muted: !old(self).muted, ..*old(self) }) && cmd
                    == Some(BackendCmd::SetMute(!old(self).muted))
            } else {
                *final(self) == *old(self) && cmd is None
            },
    {
        if !self.alive {
            return None;
        }
        self.muted = !self.muted;
        Some(BackendCmd::SetMute(self.muted))
    }

    /// Mutes outright.
    pub fn mute(&mut self) -> (cmd: Option<BackendCmd>)
        ensures
            if old(self).alive {
                *final(self) == (PlaybackEngine { muted: true, ..*old(self) }) && cmd == Some(
                    BackendCmd::SetMute(true),
                )
            } else {
                *final(self) == *old(self) && cmd is None
            },
    {
        if !self.alive {
            return None;
        }
        self.muted = true;
        Some(BackendCmd::SetMute(true))
    }

    /// Unmutes outright.
    pub fn unmute(&mut self) -> (cmd: Option<BackendCmd>)
        ensures
            if old(self).alive {
                *final(self) == (PlaybackEngine { muted: false, ..*old(self) }) && cmd == Some(
                    BackendCmd::SetMute(false),
                )
            } else {
                *final(self) == *old(self) && cmd is None
            },
    {
        if !self.alive {
            return None;
        }
        self.muted = false;
        Some(BackendCmd::SetMute(false))
    }

    /// Flips the tracked loop flag and forwards the new value.
    pub fn toggle_loop(&mut self) -> (cmd: Option<BackendCmd>)
        ensures
            if old(self).alive {
                *final(self) == (PlaybackEngine {
                    loop_enabled: !old(self).loop_enabled,
                    ..*old(self)
                }) && cmd == Some(BackendCmd::SetLoop(!old(self).loop_enabled))
            } else {
                *final(self) == *old(self) && cmd is None
            },
    {
        if !self.alive {
            return None;
        }
        self.loop_enabled = !self.loop_enabled;
        Some(BackendCmd::SetLoop(self.loop_enabled))
    }

    /// Whether this cell currently loops its file.
    pub fn is_loop_file(&self) -> (r: bool)
        ensures
            r == (self.alive && self.loop_enabled),
    {
        self.alive && self.loop_enabled
    }

    /// Turns the picture a quarter further, wrapping at a full turn.
    pub fn rotate(&mut self) -> (cmd: Option<BackendCmd>)
        requires
            old(self).wf(),
        ensures
            final(self).wf(),
            ({
                let r2 = ((old(self).rotation_degrees + 90) % 360) as u32;
                if old(self).alive {
                    &&& *final(self) == (PlaybackEngine { rotation_degrees: r2, ..*old(self) })
                    &&& cmd == Some(BackendCmd::SetRotation(r2))
                } else {
                    &&& *final(self) == *old(self)
                    &&& cmd is None
                }
            }),
    {
        if !self.alive {
            return None;
        }
        self.rotation_degrees = (self.rotation_degrees + 90) % 360;
        Some(BackendCmd::SetRotation(self.rotation_degrees))
    }

    /// One zoom step in; the level saturates rather than overflow.
    pub fn zoom_in(&mut self) -> (cmd: Option<BackendCmd>)
        ensures
            ({
                let z2 = if old(self).zoom_tenths < i64::MAX {
                    old(self).zoom_tenths + 1
                } else {
                    old(self).zoom_tenths as int
                };
                if old(self).alive {
                    &&& *final(self) == (PlaybackEngine { zoom_tenths: z2 as i64, ..*old(self) })
                    &&& cmd == Some(BackendCmd::SetZoomTenths(z2 as i64))
                } else {
                    &&& *final(self) == *old(self)
                    &&& cmd is None
                }
            }),
    {
        if !self.alive {
            return None;
        }
        if self.zoom_tenths < i64::MAX {
            self.zoom_tenths = self.zoom_tenths + 1;
        }
        Some(BackendCmd::SetZoomTenths(self.zoom_tenths))
    }

    /// One zoom step out; the level saturates rather than overflow.
    pub fn zoom_out(&mut self) -> (cmd: Option<BackendCmd>)
        ensures
            ({
                let z2 = if old(self).zoom_tenths > i64::MIN {
                    old(self).zoom_tenths - 1
                } else {
                    old(self).zoom_tenths as int
                };
                if old(self).alive {
                    &&& *final(self) == (PlaybackEngine { zoom_tenths: z2 as i64, ..*old(self) })
                    &&& cmd == Some(BackendCmd::SetZoomTenths(z2 as i64))
                } else {
                    &&& *final(self) == *old(self)
                    &&& cmd is None
                }
            }),
    {
        if !self.alive {
            return None;
        }
        if self.zoom_tenths > i64::MIN {
            self.zoom_tenths = self.zoom_tenths - 1;
        }
        Some(BackendCmd::SetZoomTenths(self.zoom_tenths))
    }

    /// Transport and one-shot commands: each returns the command for a live
    /// cell and nothing for a dead one.
    pub fn play(&self) -> (cmd: Option<BackendCmd>)
        ensures
            cmd == if self.alive {
                Some(BackendCmd::Play)
            } else {
                None::<BackendCmd>
            },
    {
        if self.alive {
            Some(BackendCmd::Play)
        } else {
            None
        }
    }

    pub fn pause(&self) -> (cmd: Option<BackendCmd>)
        ensures
            cmd == if self.alive {
                Some(BackendCmd::Pause)
            } else {
                None::<BackendCmd>
            },
    {
        if self.alive {
            Some(BackendCmd::Pause)
        } else {
            None
        }
    }

    pub fn toggle_pause(&self) -> (cmd: Option<BackendCmd>)
        ensures
            cmd == if self.alive {
                Some(BackendCmd::TogglePause)
            } else {
                None::<BackendCmd>
            },
    {
        if self.alive {
            Some(BackendCmd::TogglePause)
        } else {
            None
        }
    }

    pub fn stop(&self) -> (cmd: Option<BackendCmd>)
        ensures
            cmd == if self.alive {
                Some(BackendCmd::Stop)
            } else {
                None::<BackendCmd>
            },
    {
        if self.alive {
            Some(BackendCmd::Stop)
        } else {
            None
        }
    }

    pub fn seek_relative(&self, delta_ms: i64) -> (cmd: Option<BackendCmd>)
        ensures
            cmd == if self.alive {
                Some(BackendCmd::SeekRelativeMs(delta_ms))
            } else {
                None::<BackendCmd>
            },
    {
        if self.alive {
            Some(BackendCmd::SeekRelativeMs(delta_ms))
        } else {
            None
        }
    }

    pub fn seek_absolute(&self, pos_ms: i64) -> (cmd: Option<BackendCmd>)
        ensures
            cmd == if self.alive {
                Some(BackendCmd::SeekAbsoluteMs(pos_ms))
            } else {
                None::<BackendCmd>
            },
    {
        if self.alive {
            Some(BackendCmd::SeekAbsoluteMs(pos_ms))
        } else {
            None
        }
    }

    pub fn frame_step(&self) -> (cmd: Option<BackendCmd>)
        ensures
            cmd == if self.alive {
                Some(BackendCmd::FrameStep)
            } else {
                None::<BackendCmd>
            },
    {
        if self.alive {
            Some(BackendCmd::FrameStep)
        } else {
            None
        }
    }

    pub fn frame_back_step(&self) -> (cmd: Option<BackendCmd>)
        ensures
            cmd == if self.alive {
                Some(BackendCmd::FrameBackStep)
            } else {
                None::<BackendCmd>
            },
    {
        if self.alive {
            Some(BackendCmd::FrameBackStep)
        } else {
            None
        }
    }

    pub fn screenshot(&self) -> (cmd: Option<BackendCmd>)
        ensures
            cmd == if self.alive {
                Some(BackendCmd::Screenshot)
            } else {
                None::<BackendCmd>
            },
    {
        if self.alive {
            Some(BackendCmd::Screenshot)
        } else {
            None
        }
    }

    /// Whether some path in the seen set reads the same as `path`.
    fn seen_contains(&self, path: &String) -> (r: bool)
        ensures
            r == path_views(self.seen@).contains(path@),
    {
        let n = self.seen.len();
        let mut i: usize = 0;
        while i < n
            invariant
                n == self.seen@.len(),
                i <= n,
                forall|j: int| 0 <= j < i ==> self.seen@[j]@ != path@,
            decreases n - i,
        {
            if self.seen[i].eq(path) {
                proof {
                    assert(path_views(self.seen@)[i as int] == path@);
                }
                return true;
            }
            i = i + 1;
        }
        proof {
            assert forall|k: int|
                0 <= k < self.seen@.len() implies path_views(self.seen@)[k] != path@ by {
                assert(path_views(self.seen@)[k] == self.seen@[k]@);
            }
        }
        false
    }

    /// Reacts to the events drained from the backend since the last tick,
    /// given the currently loaded path and its duration. However many events
    /// were drained, at most one skip-seek and one advance come out: a first
    /// load of a path marks it seen and, when the duration is known and
    /// positive, seeks to the skip fraction; an end of file advances the
    /// cursor and loads the next file.
    pub fn process_events(
        &mut self,
        events: &Vec<PlaybackEvent>,
        current_path: &str,
        duration_ms: i64,
    ) -> (cmds: Vec<BackendCmd>)
        requires
            old(self).wf(),
        ensures
            final(self).wf(),
            ({
                let loaded = events@.contains(PlaybackEvent::FileLoaded);
                let ended = events@.contains(PlaybackEvent::EndOfFile);
                let marks = marks_seen(*old(self), current_path@, loaded);
                let seeks = marks && duration_ms > 0;
                let len = old(self).playlist@.len() as int;
                let advances = ended && old(self).alive && len > 0;
                let c2 = wrap_next(old(self).cursor as int, len);
                &&& path_views(final(self).seen@) == if marks {
                    path_views(old(self).seen@).push(current_path@)
                } else {
                    path_views(old(self).seen@)
                }
                &&& final(self).cursor == if advances {
                    c2
                } else {
                    old(self).cursor as int
                }
                &&& final(self).playlist == old(self).playlist
                &&& final(self).alive == old(self).alive
                &&& final(self).row == old(self).row
                &&& final(self).col == old(self).col
                &&& final(self).render_ctx_ready == old(self).render_ctx_ready
                &&& final(self).selected == old(self).selected
                &&& final(self).loop_enabled == old(self).loop_enabled
                &&& final(self).muted == old(self).muted
                &&& final(self).volume == old(self).volume
                &&& final(self).rotation_degrees == old(self).rotation_degrees
                &&& final(self).zoom_tenths == old(self).zoom_tenths
                &&& final(self).skip_enabled == old(self).skip_enabled
                &&& final(self).skip_permille == old(self).skip_permille
                &&& final(self).state == old(self).state
                &&& cmds@.len() == (if seeks {
                    1int
                } else {
                    0int
                }) + (if advances {
                    1int
                } else {
                    0int
                })
                &&& seeks ==> cmds@[0] == BackendCmd::SeekAbsoluteMs(
                    skip_target(duration_ms as int, old(self).skip_permille as int) as i64,
                )
                &&& advances ==> cmds@[cmds@.len() - 1] == BackendCmd::LoadFile(
                    old(self).playlist@[c2],
                )
            }),
    {
        let mut cmds: Vec<BackendCmd> = Vec::new();
        if !self.alive {
            return cmds;
        }
        let mut loaded = false;
        let mut ended = false;
        let n = events.len();
        let mut i: usize = 0;
        while i < n
            invariant
                n == events@.len(),
                i <= n,
                loaded == exists|j: int|
                    0 <= j < i && events@[j] == PlaybackEvent::FileLoaded,
                ended == exists|j: int| 0 <= j < i && events@[j] == PlaybackEvent::EndOfFile,
            decreases n - i,
        {
            match events[i] {
                PlaybackEvent::FileLoaded => loaded = true,
                PlaybackEvent::EndOfFile => ended = true,
            }
            i = i + 1;
        }
        if loaded && self.skip_enabled && !current_path.is_empty() {
            let path_owned: String = current_path.to_owned();
            if !self.seen_contains(&path_owned) {
                proof {
                    assert(path_views(self.seen@.push(path_owned)) =~= path_views(
                        self.seen@,
                    ).push(path_owned@));
                }
                self.seen.push(path_owned);
                if duration_ms > 0 {
                    cmds.push(BackendCmd::SeekAbsoluteMs(skip_target_ms(
                        duration_ms,
                        self.skip_permille,
                    )));
                }
            }
        }
        if ended {
            let adv = self.advance(Direction::Next);
            if let Some(c) = adv {
                cmds.push(c);
            }
        }
        cmds
    }

    /// Stores the latest backend snapshot for the status display.
    pub fn apply_snapshot(&mut self, snapshot: PlayerState)
        ensures
            *final(self) == (PlaybackEngine { state: snapshot, ..*old(self) }),
    {
        self.state = snapshot;
    }

    /// Replaces every playlist entry equal to `old_path` with `new_path`.
    pub fn update_playlist_path(&mut self, old_path: &str, new_path: &str)
        requires
            old(self).wf(),
        ensures
            final(self).wf(),
            !old(self).alive ==> *final(self) == *old(self),
            final(self).playlist@.len() == old(self).playlist@.len(),
            old(self).alive ==> forall|i: int|
                0 <= i < old(self).playlist@.len() ==> path_views(final(self).playlist@)[i]
                    == if path_views(old(self).playlist@)[i] == old_path@ {
                    new_path@
                } else {
                    path_views(old(self).playlist@)[i]
                },
            final(self).cursor == old(self).cursor,
            final(self).seen == old(self).seen,
            final(self).alive == old(self).alive,
            final(self).loop_enabled == old(self).loop_enabled,
            final(self).muted == old(self).muted,
            final(self).volume == old(self).volume,
            final(self).state == old(self).state,
            final(self).selected == old(self).selected,
            final(self).row == old(self).row,
            final(self).col == old(self).col,
            final(self).render_ctx_ready == old(self).render_ctx_ready,
            final(self).rotation_degrees == old(self).rotation_degrees,
            final(self).zoom_tenths == old(self).zoom_tenths,
            final(self).skip_enabled == old(self).skip_enabled,
            final(self).skip_permille == old(self).skip_permille,
    {
        if !self.alive {
            return ;
        }
        let old_owned: String = old_path.to_owned();
        let n = self.playlist.len();
        let mut i: usize = 0;
        while i < n
            invariant
                n == self.playlist@.len(),
                i <= n,
                old_owned@ == old_path@,
                self.playlist@.len() == old(self).playlist@.len(),
                forall|j: int|
                    i <= j < n ==> self.playlist@[j] == old(self).playlist@[j],
                forall|j: int|
                    0 <= j < i ==> self.playlist@[j]@ == (if old(self).playlist@[j]@ == old_path@ {
                        new_path@
                    } else {
                        old(self).playlist@[j]@
                    }),
                self.cursor == old(self).cursor,
                self.seen == old(self).seen,
                self.alive == old(self).alive,
                self.loop_enabled == old(self).loop_enabled,
                self.muted == old(self).muted,
                self.volume == old(self).volume,
                self.state == old(self).state,
                self.selected == old(self).selected,
                self.row == old(self).row,
                self.col == old(self).col,
                self.render_ctx_ready == old(self).render_ctx_ready,
                self.rotation_degrees == old(self).rotation_degrees,
                self.zoom_tenths == old(self).zoom_tenths,
                self.skip_enabled == old(self).skip_enabled,
                self.skip_permille == old(self).skip_permille,
            decreases n - i,
        {
            if self.playlist[i].eq(&old_owned) {
                let replacement: String = new_path.to_owned();
                self.playlist[i] = replacement;
            }
            i = i + 1;
        }
        proof {
            assert forall|j: int| 0 <= j < old(self).playlist@.len() implies path_views(
                self.playlist@,
            )[j] == (if path_views(old(self).playlist@)[j] == old_path@ {
                new_path@
            } else {
                path_views(old(self).playlist@)[j]
            }) by {
                assert(path_views(self.playlist@)[j] == self.playlist@[j]@);
                assert(path_views(old(self).playlist@)[j] == old(self).playlist@[j]@);
            }
        }
    }

    /// The last stored snapshot.
    pub fn state(&self) -> (r: &PlayerState)
        ensures
            *r == self.state,
    {
        &self.state
    }

    /// The path of the last stored snapshot.
    pub fn current_file(&self) -> (r: &str)
        ensures
            r@ == self.state.path@,
    {
        self.state.path.as_str()
    }

    pub fn position_ms(&self) -> (r: i64)
        ensures
            r == self.state.position_ms,
    {
        self.state.position_ms
    }

    pub fn duration_ms(&self) -> (r: i64)
        ensures
            r == self.state.duration_ms,
    {
        self.state.duration_ms
    }

    pub fn is_paused(&self) -> (r: bool)
        ensures
            r == self.state.paused,
    {
        self.state.paused
    }

    pub fn set_selected(&mut self, selected: bool)
        ensures
            *final(self) == (PlaybackEngine { selected, ..*old(self) }),
    {
        self.selected = selected;
    }

    pub fn is_selected(&self) -> (r: bool)
        ensures
            r == self.selected,
    {
        self.selected
    }

    /// The `row,col` label the status table shows for this cell.
    pub fn cell_id(&self) -> (r: String)
        ensures
            r@ == crate::text::dec_string(self.row as int) + seq![','] + crate::text::dec_string(
                self.col as int,
            ),
    {
        let mut s = crate::text::u64_dec(self.row as u64);
        s.append(",");
        s.append(crate::text::u64_dec(self.col as u64).as_str());
        proof {
            reveal_strlit(",");
            assert(","@ =~= seq![',']);
        }
        s
    }
}

/// Stepping the cursor forward and then backward lands on the starting
/// cursor again, for any playlist the cursor validly points into; together
/// with `advance`'s contract this is the round trip of a "next" followed by
/// a "prev" on a live cell, and `advance` leaves an empty playlist alone.
pub proof fn lemma_advance_round_trip(cursor: int, len: int)
    requires
        0 <= cursor < len,
    ensures
        wrap_prev(wrap_next(cursor, len), len) == cursor,
        wrap_next(wrap_prev(cursor, len), len) == cursor,
{
}

/// The same round trip at the engine level: a live engine that `advance`
/// stepped forward (to `e1`) and then backward (to `e2`), exactly as
/// `advance`'s contract describes those steps, is back in its starting
/// state.
pub proof fn lemma_next_prev_round_trip(e0: PlaybackEngine, e1: PlaybackEngine, e2: PlaybackEngine)
    requires
        e0.wf(),
        e0.alive,
        e0.playlist@.len() > 0,
        e1 == (PlaybackEngine {
            cursor: wrap_next(e0.cursor as int, e0.playlist@.len() as int) as usize,
            ..e0
        }),
        e2 == (PlaybackEngine {
            cursor: wrap_prev(e1.cursor as int, e1.playlist@.len() as int) as usize,
            ..e1
        }),
    ensures
        e2 == e0,
{
    assert(e0.playlist.len() == e0.playlist@.len());
    lemma_advance_round_trip(e0.cursor as int, e0.playlist@.len() as int);
}

/// Whatever volume is requested, what the engine stores and forwards sits
/// inside `[0, 100]`.
pub proof fn lemma_volume_clamped(v: int)
    ensures
        0 <= clamp_volume(v) <= 100,
{
}

} // verus!
