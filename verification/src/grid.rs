//! The grid coordinator: owns the engine array and the render-target pool,
//! keeps them index-aligned (`index = row * cols + col`), tracks selection
//! and the fullscreen flags, and routes user actions either to every cell
//! or to the selected one. Methods that would drive a backend return the
//! commands to perform, index-aligned with the engine array.

use vstd::prelude::*;
use vstd::arithmetic::div_mod::{
    lemma_fundamental_div_mod, lemma_mod_bound, lemma_mod_multiples_vanish, lemma_small_mod,
};
use crate::action::Action;
use crate::config::Config;
use crate::errors::GridError;
use crate::panel::ControlPanel;
use crate::player::{
    clamp_volume, path_views, shuffle_in_place, wrap_next, BackendCmd, PlaybackEngine,
};
use crate::render_pool::{RenderTarget, RenderTargetPool};

verus! {

/// Rows and columns are each held to this, so a cell index never overflows
/// a usize even on a narrow machine.
pub const MAX_GRID_DIM: usize = 65535;

/// The coordinate reached from `pos` by `delta` with wraparound modulo `n`.
pub open spec fn wrap_coord(pos: int, delta: int, n: int) -> int {
    (pos + delta) % n
}

/// Moves a coordinate by a signed step with wraparound.
fn wrap_add(pos: usize, delta: i32, n: usize) -> (r: usize)
    requires
        1 <= n,
        pos < n,
    ensures
        r == wrap_coord(pos as int, delta as int, n as int),
        r < n,
{
    proof {
        lemma_mod_bound(pos as int + delta as int, n as int);
    }
    let n128: u128 = n as u128;
    if delta >= 0 {
        let t: u128 = pos as u128 + delta as u128;
        let r128: u128 = t % n128;
        proof {
            lemma_mod_bound(t as int, n as int);
        }
        r128 as usize
    } else {
        let d0: u128 = (-(delta as i64)) as u128;
        let d: u128 = d0 % n128;
        proof {
            let q = d0 as int / n as int;
            lemma_fundamental_div_mod(d0 as int, n as int);
            assert(d0 as int == n as int * q + d as int);
        }
        if d == 0 {
            proof {
                let q = d0 as int / n as int;
                assert(n as int * (-q) == -(n as int * q)) by (nonlinear_arith);
                assert(d0 as int == -(delta as int));
                assert(n as int * (-q) + pos as int == pos as int + delta as int);
                lemma_mod_multiples_vanish(-q, pos as int, n as int);
                lemma_small_mod(pos as nat, n as nat);
            }
            pos
        } else if pos as u128 >= d {
            let r: usize = pos - (d as usize);
            proof {
                let q = d0 as int / n as int;
                assert(n as int * (-q) == -(n as int * q)) by (nonlinear_arith);
                assert(d0 as int == -(delta as int));
                assert(n as int * (-q) + (pos as int - d as int) == pos as int + delta as int);
                lemma_mod_multiples_vanish(-q, pos as int - d as int, n as int);
                lemma_small_mod((pos as int - d as int) as nat, n as nat);
            }
            r
        } else {
            let r: usize = pos + (n - (d as usize));
            proof {
                let q = d0 as int / n as int;
                assert(n as int * (-q - 1) == -(n as int * q) - n as int) by (nonlinear_arith);
                assert(d0 as int == -(delta as int));
                assert(n as int * (-q - 1) + (pos as int - d as int + n as int) == pos as int
                    + delta as int);
                lemma_mod_multiples_vanish(-q - 1, pos as int - d as int + n as int, n as int);
                lemma_small_mod((pos as int - d as int + n as int) as nat, n as nat);
            }
            r
        }
    }
}

/// The flat index of cell `(row, col)` in a grid `cols` wide.
pub open spec fn cell_index_of(row: int, col: int, cols: int) -> int {
    row * cols + col
}

pub struct GridCoordinator {
    pub config: Config,
    pub panel: ControlPanel,
    pub engines: Vec<PlaybackEngine>,
    pub pool: RenderTargetPool,
    pub selected_row: Option<usize>,
    pub selected_col: Option<usize>,
    pub is_fullscreen: bool,
    pub is_tile_fullscreen: bool,
    pub fullscreen_cell: Option<(usize, usize)>,
}

/// The selected flag each engine carries after cell `new_idx` is selected,
/// given that `old_idx` (or no cell, as `-1`) was selected before.
pub open spec fn sel_flag_after(
    pre: Seq<PlaybackEngine>,
    new_idx: int,
    old_idx: int,
    i: int,
) -> bool {
    if i == new_idx {
        true
    } else if i == old_idx {
        false
    } else {
        pre[i].selected
    }
}

/// The flat index of the selection, or `-1` while nothing is selected.
pub open spec fn spec_sel_index(c: GridCoordinator) -> int {
    if c.selected_row is Some && c.selected_col is Some {
        cell_index_of(c.selected_row->0 as int, c.selected_col->0 as int, c.panel.cols as int)
    } else {
        -1
    }
}

/// How `select_cell(row, col)` changes the coordinator: the previous
/// selection is dropped, `(row, col)` is recorded and its engine flagged,
/// and the panel shows the newly selected cell's file.
pub open spec fn select_effect(
    pre: GridCoordinator,
    post: GridCoordinator,
    row: usize,
    col: usize,
) -> bool {
    let n = pre.engines@.len() as int;
    let new_idx = cell_index_of(row as int, col as int, pre.panel.cols as int);
    let old_idx = spec_sel_index(pre);
    &&& post.selected_row == Some(row)
    &&& post.selected_col == Some(col)
    &&& post.engines@.len() == n
    &&& forall|i: int|
        0 <= i < n ==> post.engines@[i] == (PlaybackEngine {
            selected: sel_flag_after(pre.engines@, new_idx, old_idx, i),
            ..pre.engines@[i]
        })
    &&& post.panel == (ControlPanel { selected_path: post.panel.selected_path, ..pre.panel })
    &&& post.panel.selected_path@ == if 0 <= new_idx < n {
        pre.engines@[new_idx].state.path@
    } else {
        pre.panel.selected_path@
    }
    &&& post.pool == pre.pool
    &&& post.config == pre.config
    &&& post.is_fullscreen == pre.is_fullscreen
    &&& post.is_tile_fullscreen == pre.is_tile_fullscreen
    &&& post.fullscreen_cell == pre.fullscreen_cell
}

impl GridCoordinator {
    /// Structural validity: sane grid dimensions, a selection (when there
    /// is one) inside the grid, well-formed engines, and, while running,
    /// engines and render targets index-aligned with the grid.
    pub open spec fn wf(&self) -> bool {
        &&& 1 <= self.panel.rows <= MAX_GRID_DIM
        &&& 1 <= self.panel.cols <= MAX_GRID_DIM
        &&& 0 <= self.panel.volume <= 100
        &&& (self.selected_row is Some <==> self.selected_col is Some)
        &&& self.selected_row is Some ==> self.selected_row->0 < self.panel.rows
        &&& self.selected_col is Some ==> self.selected_col->0 < self.panel.cols
        &&& self.fullscreen_cell is Some ==> ({
            let fc = self.fullscreen_cell->0;
            fc.0 < self.panel.rows && fc.1 < self.panel.cols
        })
        &&& forall|i: int| 0 <= i < self.engines@.len() ==> (#[trigger] self.engines@[i]).wf()
        &&& self.pool.wf()
        &&& self.panel.is_running ==> self.engines@.len() == (self.panel.rows as int) * (
        self.panel.cols as int)
        &&& self.panel.is_running ==> self.pool.slots@.len() == self.engines@.len()
    }

    /// A coordinator with no grid running, its panel primed from the
    /// configuration (dimensions held to the valid range).
    pub fn new(config: Config, source_dir: String) -> (c: Self)
        ensures
            c.wf(),
            c.engines@.len() == 0,
            c.pool.slots@.len() == 0,
            c.selected_row is None,
            c.selected_col is None,
            !c.is_fullscreen,
            !c.is_tile_fullscreen,
            c.fullscreen_cell is None,
            !c.panel.is_running,
            c.panel.source_dir == source_dir,
            c.panel.rows == dim_from_config(config.grid.default_rows as int),
            c.panel.cols == dim_from_config(config.grid.default_cols as int),
            c.panel.volume == clamp_volume(config.playback.default_volume as int),
            c.config == config,
    {
        let rows: usize = clamp_dim(config.grid.default_rows);
        let cols: usize = clamp_dim(config.grid.default_cols);
        let vol_u32: u32 = config.playback.default_volume;
        let volume: i64 = if vol_u32 > 100 {
            100
        } else {
            vol_u32 as i64
        };
        GridCoordinator {
            panel: ControlPanel::new(source_dir, rows, cols, volume),
            config,
            engines: Vec::new(),
            pool: RenderTargetPool::new(),
            selected_row: None,
            selected_col: None,
            is_fullscreen: false,
            is_tile_fullscreen: false,
            fullscreen_cell: None,
        }
    }

    /// Resizes the grid topology; takes effect at the next start. The
    /// dimensions are held to the valid range.
    pub fn set_grid_size(&mut self, rows: u32, cols: u32)
        requires
            old(self).wf(),
            !old(self).panel.is_running,
            old(self).selected_row is None,
            old(self).selected_col is None,
            old(self).fullscreen_cell is None,
        ensures
            final(self).wf(),
            final(self).panel.rows == dim_from_config(rows as int),
            final(self).panel.cols == dim_from_config(cols as int),
            final(self).panel == (ControlPanel {
                rows: final(self).panel.rows,
                cols: final(self).panel.cols,
                ..old(self).panel
            }),
            final(self).engines == old(self).engines,
            final(self).pool == old(self).pool,
            final(self).config == old(self).config,
            final(self).selected_row == old(self).selected_row,
            final(self).selected_col == old(self).selected_col,
            final(self).is_fullscreen == old(self).is_fullscreen,
            final(self).is_tile_fullscreen == old(self).is_tile_fullscreen,
            final(self).fullscreen_cell == old(self).fullscreen_cell,
    {
        self.panel.rows = clamp_dim(rows);
        self.panel.cols = clamp_dim(cols);
    }

    /// Selects cell `(row, col)`, dropping the previous selection; the
    /// panel's shown path follows the selected engine's current file.
    pub fn select_cell(&mut self, row: usize, col: usize)
        requires
            old(self).wf(),
            row < old(self).panel.rows,
            col < old(self).panel.cols,
        ensures
            final(self).wf(),
            select_effect(*old(self), *final(self), row, col),
    {
        proof {
            lemma_cell_index_bounds(
                row as int,
                col as int,
                self.panel.rows as int,
                self.panel.cols as int,
            );
            lemma_sel_index_bounds(*self);
        }
        if let (Some(r0), Some(c0)) = (self.selected_row, self.selected_col) {
            let i0: usize = r0 * self.panel.cols + c0;
            if i0 < self.engines.len() {
                self.engines[i0].set_selected(false);
            }
        }
        self.selected_row = Some(row);
        self.selected_col = Some(col);
        let idx: usize = row * self.panel.cols + col;
        if idx < self.engines.len() {
            self.engines[idx].set_selected(true);
            self.panel.selected_path = self.engines[idx].state().path.clone();
        }
    }

    /// Moves the selection by one step on each axis with independent
    /// wraparound; with no cells there is nothing to select, and with no
    /// selection yet the first cell is selected.
    pub fn navigate_selection(&mut self, col_delta: i32, row_delta: i32)
        requires
            old(self).wf(),
        ensures
            final(self).wf(),
            old(self).engines@.len() == 0 ==> *final(self) == *old(self),
            old(self).engines@.len() > 0 && spec_sel_index(*old(self)) < 0 ==> select_effect(
                *old(self),
                *final(self),
                0,
                0,
            ),
            old(self).engines@.len() > 0 && spec_sel_index(*old(self)) >= 0 ==> select_effect(
                *old(self),
                *final(self),
                wrap_coord(
                    old(self).selected_row->0 as int,
                    row_delta as int,
                    old(self).panel.rows as int,
                ) as usize,
                wrap_coord(
                    old(self).selected_col->0 as int,
                    col_delta as int,
                    old(self).panel.cols as int,
                ) as usize,
            ),
            final(self).selected_row is Some ==> final(self).selected_row->0
                < final(self).panel.rows && final(self).selected_col->0 < final(self).panel.cols,
    {
        if self.engines.len() == 0 {
            return ;
        }
        let (row, col) = match (self.selected_row, self.selected_col) {
            (Some(r), Some(c)) => (r, c),
            _ => {
                self.select_cell(0, 0);
                return ;
            },
        };
        let new_row: usize = wrap_add(row, row_delta, self.panel.rows);
        let new_col: usize = wrap_add(col, col_delta, self.panel.cols);
        self.select_cell(new_row, new_col);
    }

    /// Whether the grid area should paint cell `(row, col)`: every cell
    /// normally, only the remembered one in single-cell fullscreen.
    pub fn cell_visible(&self, row: usize, col: usize) -> (r: bool)
        ensures
            r == !(self.is_tile_fullscreen && self.fullscreen_cell is Some && ({
                let fc = self.fullscreen_cell->0;
                !(fc.0 == row && fc.1 == col)
            })),
    {
        if self.is_tile_fullscreen {
            if let Some((fr, fc)) = self.fullscreen_cell {
                return fr == row && fc == col;
            }
        }
        true
    }

    /// Flips whole-window fullscreen.
    pub fn toggle_fullscreen(&mut self)
        requires
            old(self).wf(),
        ensures
            final(self).wf(),
            *final(self) == (GridCoordinator {
                is_fullscreen: !old(self).is_fullscreen,
                ..*old(self)
            }),
    {
        self.is_fullscreen = !self.is_fullscreen;
    }

    /// Leaves fullscreen entirely: single-cell mode, its remembered cell,
    /// and the whole-window flag are all cleared.
    pub fn exit_fullscreen(&mut self)
        requires
            old(self).wf(),
        ensures
            final(self).wf(),
            *final(self) == (GridCoordinator {
                is_fullscreen: false,
                is_tile_fullscreen: false,
                fullscreen_cell: if old(self).is_tile_fullscreen {
                    None
                } else {
                    old(self).fullscreen_cell
                },
                ..*old(self)
            }),
    {
        if self.is_tile_fullscreen {
            self.is_tile_fullscreen = false;
            self.fullscreen_cell = None;
        }
        self.is_fullscreen = false;
    }

    /// Flips single-cell fullscreen: off clears the remembered cell; on
    /// remembers the selected cell (if any) and raises whole-window
    /// fullscreen too.
    pub fn toggle_tile_fullscreen(&mut self)
        requires
            old(self).wf(),
        ensures
            final(self).wf(),
            old(self).is_tile_fullscreen ==> *final(self) == (GridCoordinator {
                is_tile_fullscreen: false,
                fullscreen_cell: None,
                ..*old(self)
            }),
            !old(self).is_tile_fullscreen && spec_sel_index(*old(self)) >= 0 ==> *final(self) == (
            GridCoordinator {
                is_tile_fullscreen: true,
                is_fullscreen: true,
                fullscreen_cell: Some(
                    (old(self).selected_row->0, old(self).selected_col->0),
                ),
                ..*old(self)
            }),
            !old(self).is_tile_fullscreen && spec_sel_index(*old(self)) < 0 ==> *final(self)
                == *old(self),
    {
        if self.is_tile_fullscreen {
            self.is_tile_fullscreen = false;
            self.fullscreen_cell = None;
        } else if let (Some(row), Some(col)) = (self.selected_row, self.selected_col) {
            self.is_tile_fullscreen = true;
            self.fullscreen_cell = Some((row, col));
            self.is_fullscreen = true;
        }
    }
}

/// What `stop` hands back: a stop command per engine that ran, and the
/// render targets whose GPU objects must now be deleted.
pub struct StopOutcome {
    pub cmds: Vec<Option<BackendCmd>>,
    pub released: Vec<Option<RenderTarget>>,
}

/// What `start` hands back: the verdict, the commands for the engines that
/// ran before, the render targets to delete, and the commands that bring
/// each new cell up.
pub struct StartOutcome {
    pub error: Option<GridError>,
    pub stop_cmds: Vec<Option<BackendCmd>>,
    pub released: Vec<Option<RenderTarget>>,
    pub cell_cmds: Vec<Vec<BackendCmd>>,
}

/// One engine after a broadcast "next", which leaves looping cells alone.
pub open spec fn stepped_next(e: PlaybackEngine, e2: PlaybackEngine, c: Option<BackendCmd>) -> bool {
    let len = e.playlist@.len() as int;
    let c2 = wrap_next(e.cursor as int, len);
    if e.alive && !e.loop_enabled && len > 0 {
        &&& e2 == (PlaybackEngine { cursor: c2 as usize, ..e })
        &&& e2.cursor == c2
        &&& c == Some(BackendCmd::LoadFile(e.playlist@[c2]))
    } else {
        &&& e2 == e
        &&& c is None
    }
}

/// One engine after a broadcast "previous".
pub open spec fn stepped_prev(e: PlaybackEngine, e2: PlaybackEngine, c: Option<BackendCmd>) -> bool {
    let len = e.playlist@.len() as int;
    let c2 = if e.cursor == 0 {
        len - 1
    } else {
        e.cursor - 1
    };
    if e.alive && len > 0 {
        &&& e2 == (PlaybackEngine { cursor: c2 as usize, ..e })
        &&& e2.cursor == c2
        &&& c == Some(BackendCmd::LoadFile(e.playlist@[c2]))
    } else {
        &&& e2 == e
        &&& c is None
    }
}

/// One engine after a shuffle: the same files in some order, everything
/// else untouched.
pub open spec fn shuffled_eng(e: PlaybackEngine, e2: PlaybackEngine) -> bool {
    &&& e2.playlist@.len() == e.playlist@.len()
    &&& path_views(e2.playlist@).to_multiset() == path_views(e.playlist@).to_multiset()
    &&& e2.cursor == e.cursor
    &&& e2.seen == e.seen
    &&& e2.alive == e.alive
    &&& e2.row == e.row
    &&& e2.col == e.col
    &&& e2.render_ctx_ready == e.render_ctx_ready
    &&& e2.selected == e.selected
    &&& e2.loop_enabled == e.loop_enabled
    &&& e2.muted == e.muted
    &&& e2.volume == e.volume
    &&& e2.rotation_degrees == e.rotation_degrees
    &&& e2.zoom_tenths == e.zoom_tenths
    &&& e2.skip_enabled == e.skip_enabled
    &&& e2.skip_permille == e.skip_permille
    &&& e2.state == e.state
}

/// Everything of the coordinator but the engine array is unchanged.
pub open spec fn same_but_engines(pre: GridCoordinator, post: GridCoordinator) -> bool {
    &&& post.panel == pre.panel
    &&& post.pool == pre.pool
    &&& post.config == pre.config
    &&& post.selected_row == pre.selected_row
    &&& post.selected_col == pre.selected_col
    &&& post.is_fullscreen == pre.is_fullscreen
    &&& post.is_tile_fullscreen == pre.is_tile_fullscreen
    &&& post.fullscreen_cell == pre.fullscreen_cell
    &&& post.engines@.len() == pre.engines@.len()
}

/// A broadcast "next" across the grid: each cell stepped as `stepped_next`
/// says, nothing else touched.
pub open spec fn rel_next_all(
    pre: GridCoordinator,
    post: GridCoordinator,
    cmds: Seq<Option<BackendCmd>>,
) -> bool {
    &&& same_but_engines(pre, post)
    &&& cmds.len() == pre.engines@.len()
    &&& forall|i: int|
        0 <= i < pre.engines@.len() ==> stepped_next(
            pre.engines@[i],
            #[trigger] post.engines@[i],
            cmds[i],
        )
}

/// A broadcast "previous" across the grid.
pub open spec fn rel_prev_all(
    pre: GridCoordinator,
    post: GridCoordinator,
    cmds: Seq<Option<BackendCmd>>,
) -> bool {
    &&& same_but_engines(pre, post)
    &&& cmds.len() == pre.engines@.len()
    &&& forall|i: int|
        0 <= i < pre.engines@.len() ==> stepped_prev(
            pre.engines@[i],
            #[trigger] post.engines@[i],
            cmds[i],
        )
}

/// A broadcast shuffle across the grid.
pub open spec fn rel_shuffle_all(pre: GridCoordinator, post: GridCoordinator) -> bool {
    &&& same_but_engines(pre, post)
    &&& forall|i: int|
        0 <= i < pre.engines@.len() ==> shuffled_eng(pre.engines@[i], #[trigger] post.engines@[i])
}

/// A broadcast mute toggle across the grid.
pub open spec fn rel_mute_all(
    pre: GridCoordinator,
    post: GridCoordinator,
    cmds: Seq<Option<BackendCmd>>,
) -> bool {
    &&& same_but_engines(pre, post)
    &&& cmds.len() == pre.engines@.len()
    &&& forall|i: int|
        0 <= i < pre.engines@.len() ==> {
            let e = pre.engines@[i];
            if e.alive {
                #[trigger] post.engines@[i] == (PlaybackEngine { muted: !e.muted, ..e }) && cmds[i]
                    == Some(BackendCmd::SetMute(!e.muted))
            } else {
                post.engines@[i] == e && cmds[i] is None
            }
        }
}

/// A broadcast volume set: each live cell stores and forwards the clamped
/// value.
pub open spec fn rel_set_volume_all(
    pre: GridCoordinator,
    post: GridCoordinator,
    cmds: Seq<Option<BackendCmd>>,
    v: int,
) -> bool {
    &&& same_but_engines(pre, post)
    &&& cmds.len() == pre.engines@.len()
    &&& forall|i: int|
        0 <= i < pre.engines@.len() ==> {
            let e = pre.engines@[i];
            if e.alive {
                #[trigger] post.engines@[i] == (PlaybackEngine {
                    volume: clamp_volume(v) as i64,
                    ..e
                }) && cmds[i] == Some(BackendCmd::SetVolume(clamp_volume(v) as i64))
            } else {
                post.engines@[i] == e && cmds[i] is None
            }
        }
}

/// The status message a volume step leaves behind.
pub open spec fn volume_msg(v: int) -> Seq<char> {
    "Volume: "@ + crate::text::dec_string(v) + "%"@
}

/// A master-volume step: the panel volume moves by five and stays inside
/// `[0, 100]`, every live cell follows it, and the panel logs the value.
pub open spec fn rel_volume_step(
    pre: GridCoordinator,
    post: GridCoordinator,
    cmds: Seq<Option<BackendCmd>>,
    up: bool,
) -> bool {
    let nv = if up {
        if pre.panel.volume + 5 > 100 {
            100int
        } else {
            pre.panel.volume + 5
        }
    } else {
        if pre.panel.volume - 5 < 0 {
            0int
        } else {
            pre.panel.volume - 5
        }
    };
    &&& post.panel.volume == nv
    &&& 0 <= post.panel.volume <= 100
    &&& post.panel == (ControlPanel {
        volume: nv as i64,
        log_message: post.panel.log_message,
        ..pre.panel
    })
    &&& exists|stamp: Seq<char>|
        stamp.len() == 8 && post.panel.log_message@ == seq!['['] + stamp + seq![']', ' ']
            + volume_msg(nv)
    &&& post.pool == pre.pool
    &&& post.config == pre.config
    &&& post.selected_row == pre.selected_row
    &&& post.selected_col == pre.selected_col
    &&& post.is_fullscreen == pre.is_fullscreen
    &&& post.is_tile_fullscreen == pre.is_tile_fullscreen
    &&& post.fullscreen_cell == pre.fullscreen_cell
    &&& cmds.len() == pre.engines@.len()
    &&& post.engines@.len() == pre.engines@.len()
    &&& forall|i: int|
        0 <= i < pre.engines@.len() ==> {
            let e = pre.engines@[i];
            if e.alive {
                #[trigger] post.engines@[i] == (PlaybackEngine { volume: nv as i64, ..e })
                    && cmds[i] == Some(BackendCmd::SetVolume(nv as i64))
            } else {
                post.engines@[i] == e && cmds[i] is None
            }
        }
}

/// The commands of an action aimed at the selected cell alone: `c` at the
/// selected index if that cell is live, nothing anywhere else.
pub open spec fn sel_only_cmds(
    pre: GridCoordinator,
    cmds: Seq<Option<BackendCmd>>,
    c: BackendCmd,
) -> bool {
    let idx = spec_sel_index(pre);
    &&& cmds.len() == pre.engines@.len()
    &&& forall|i: int|
        0 <= i < cmds.len() ==> cmds[i] == (if i == idx && pre.engines@[i].alive {
            Some(c)
        } else {
            None::<BackendCmd>
        })
}

/// One grid cell as `start` leaves it, with the commands that bring it up.
pub open spec fn cell_started(
    e: PlaybackEngine,
    cc: Seq<BackendCmd>,
    idx: int,
    cols: int,
    files: Seq<String>,
    ok: bool,
    rctx: bool,
    vol: int,
    config: Config,
) -> bool {
    &&& e.row == idx / cols
    &&& e.col == idx % cols
    &&& e.alive == ok
    &&& e.render_ctx_ready == (ok && rctx)
    &&& e.selected == (idx == 0)
    &&& e.seen@.len() == 0
    &&& !e.loop_enabled
    &&& !e.muted
    &&& e.rotation_degrees == 0
    &&& e.zoom_tenths == 0
    &&& e.skip_enabled == config.skipper.enabled
    &&& e.skip_permille == (if config.skipper.skip_permille <= 1000 {
        config.skipper.skip_permille as int
    } else {
        1000
    })
    &&& e.state.path@.len() == 0
    &&& e.cursor == 0
    &&& if ok {
        &&& e.playlist@.len() == files.len()
        &&& path_views(e.playlist@).to_multiset() == path_views(files).to_multiset()
        &&& e.volume == clamp_volume(vol)
        &&& (files.len() > 0 ==> cc =~= seq![
            BackendCmd::LoadFile(e.playlist@[0]),
            BackendCmd::SetVolume(clamp_volume(vol) as i64),
            BackendCmd::Play,
        ])
    } else {
        &&& e.playlist@.len() == 0
        &&& e.volume == clamp_volume(config.playback.default_volume as int)
        &&& cc =~= Seq::<BackendCmd>::empty()
    }
}

/// The status message a successful start leaves behind.
pub open spec fn started_msg(cols: int, rows: int) -> Seq<char> {
    "Started "@ + crate::text::dec_string(cols) + "x"@ + crate::text::dec_string(rows) + " grid"@
}

impl GridCoordinator {
    /// A vector of no commands, one slot per engine.
    fn no_cmds(n: usize) -> (v: Vec<Option<BackendCmd>>)
        ensures
            v@.len() == n,
            forall|i: int| 0 <= i < n ==> v@[i] is None,
    {
        let mut v: Vec<Option<BackendCmd>> = Vec::new();
        let mut i: usize = 0;
        while i < n
            invariant
                i <= n,
                v@.len() == i,
                forall|j: int| 0 <= j < i ==> v@[j] is None,
            decreases n - i,
        {
            v.push(None);
            i = i + 1;
        }
        v
    }

    /// The flat index of the selected cell, if any.
    pub fn selected_index(&self) -> (r: Option<usize>)
        requires
            self.wf(),
        ensures
            (r is Some) == (spec_sel_index(*self) >= 0),
            r is Some ==> r->0 == spec_sel_index(*self),
    {
        proof {
            lemma_sel_index_bounds(*self);
        }
        match (self.selected_row, self.selected_col) {
            (Some(r0), Some(c0)) => Some(r0 * self.panel.cols + c0),
            _ => None,
        }
    }

    /// Toggles pause on every live cell.
    pub fn play_pause_all(&self) -> (cmds: Vec<Option<BackendCmd>>)
        ensures
            cmds@.len() == self.engines@.len(),
            forall|i: int|
                0 <= i < self.engines@.len() ==> cmds@[i] == (if self.engines@[i].alive {
                    Some(BackendCmd::TogglePause)
                } else {
                    None::<BackendCmd>
                }),
    {
        let n = self.engines.len();
        let mut cmds: Vec<Option<BackendCmd>> = Vec::new();
        let mut i: usize = 0;
        while i < n
            invariant
                n == self.engines@.len(),
                i <= n,
                cmds@.len() == i,
                forall|j: int|
                    0 <= j < i ==> cmds@[j] == (if self.engines@[j].alive {
                        Some(BackendCmd::TogglePause)
                    } else {
                        None::<BackendCmd>
                    }),
            decreases n - i,
        {
            cmds.push(self.engines[i].toggle_pause());
            i = i + 1;
        }
        cmds
    }

    /// Steps every cell that is not looping to its next file.
    pub fn next_all_if_not_looping(&mut self) -> (cmds: Vec<Option<BackendCmd>>)
        requires
            old(self).wf(),
        ensures
            final(self).wf(),
            rel_next_all(*old(self), *final(self), cmds@),
    {
        let n = self.engines.len();
        let mut cmds: Vec<Option<BackendCmd>> = Vec::new();
        let mut i: usize = 0;
        while i < n
            invariant
                n == self.engines@.len(),
                i <= n,
                cmds@.len() == i,
                self.panel == old(self).panel,
                self.pool == old(self).pool,
                self.config == old(self).config,
                self.selected_row == old(self).selected_row,
                self.selected_col == old(self).selected_col,
                self.is_fullscreen == old(self).is_fullscreen,
                self.is_tile_fullscreen == old(self).is_tile_fullscreen,
                self.fullscreen_cell == old(self).fullscreen_cell,
                forall|j: int| i <= j < n ==> self.engines@[j] == old(self).engines@[j],
                forall|j: int|
                    0 <= j < i ==> stepped_next(
                        old(self).engines@[j],
                        #[trigger] self.engines@[j],
                        cmds@[j],
                    ),
                forall|j: int| 0 <= j < n ==> (#[trigger] self.engines@[j]).wf(),
            decreases n - i,
        {
            let c = self.engines[i].next_if_not_looping();
            cmds.push(c);
            i = i + 1;
        }
        cmds
    }

    /// Steps every live cell back to its previous file.
    pub fn prev_all(&mut self) -> (cmds: Vec<Option<BackendCmd>>)
        requires
            old(self).wf(),
        ensures
            final(self).wf(),
            rel_prev_all(*old(self), *final(self), cmds@),
    {
        let n = self.engines.len();
        let mut cmds: Vec<Option<BackendCmd>> = Vec::new();
        let mut i: usize = 0;
        while i < n
            invariant
                n == self.engines@.len(),
                i <= n,
                cmds@.len() == i,
                self.panel == old(self).panel,
                self.pool == old(self).pool,
                self.config == old(self).config,
                self.selected_row == old(self).selected_row,
                self.selected_col == old(self).selected_col,
                self.is_fullscreen == old(self).is_fullscreen,
                self.is_tile_fullscreen == old(self).is_tile_fullscreen,
                self.fullscreen_cell == old(self).fullscreen_cell,
                forall|j: int| i <= j < n ==> self.engines@[j] == old(self).engines@[j],
                forall|j: int|
                    0 <= j < i ==> stepped_prev(
                        old(self).engines@[j],
                        #[trigger] self.engines@[j],
                        cmds@[j],
                    ),
                forall|j: int| 0 <= j < n ==> (#[trigger] self.engines@[j]).wf(),
            decreases n - i,
        {
            let c = self.engines[i].advance(crate::player::Direction::Prev);
            cmds.push(c);
            i = i + 1;
        }
        cmds
    }

    /// Shuffles every live cell's playlist independently.
    pub fn shuffle_all(&mut self)
        requires
            old(self).wf(),
        ensures
            final(self).wf(),
            rel_shuffle_all(*old(self), *final(self)),
    {
        let n = self.engines.len();
        let mut i: usize = 0;
        while i < n
            invariant
                n == self.engines@.len(),
                i <= n,
                self.panel == old(self).panel,
                self.pool == old(self).pool,
                self.config == old(self).config,
                self.selected_row == old(self).selected_row,
                self.selected_col == old(self).selected_col,
                self.is_fullscreen == old(self).is_fullscreen,
                self.is_tile_fullscreen == old(self).is_tile_fullscreen,
                self.fullscreen_cell == old(self).fullscreen_cell,
                forall|j: int| i <= j < n ==> self.engines@[j] == old(self).engines@[j],
                forall|j: int|
                    0 <= j < i ==> shuffled_eng(old(self).engines@[j], #[trigger] self.engines@[j]),
                forall|j: int| 0 <= j < n ==> (#[trigger] self.engines@[j]).wf(),
            decreases n - i,
        {
            self.engines[i].shuffle();
            i = i + 1;
        }
    }

    /// Toggles mute on every live cell.
    pub fn mute_all(&mut self) -> (cmds: Vec<Option<BackendCmd>>)
        requires
            old(self).wf(),
        ensures
            final(self).wf(),
            rel_mute_all(*old(self), *final(self), cmds@),
    {
        let n = self.engines.len();
        let mut cmds: Vec<Option<BackendCmd>> = Vec::new();
        let mut i: usize = 0;
        while i < n
            invariant
                n == self.engines@.len(),
                i <= n,
                cmds@.len() == i,
                self.panel == old(self).panel,
                self.pool == old(self).pool,
                self.config == old(self).config,
                self.selected_row == old(self).selected_row,
                self.selected_col == old(self).selected_col,
                self.is_fullscreen == old(self).is_fullscreen,
                self.is_tile_fullscreen == old(self).is_tile_fullscreen,
                self.fullscreen_cell == old(self).fullscreen_cell,
                forall|j: int| i <= j < n ==> self.engines@[j] == old(self).engines@[j],
                forall|j: int|
                    0 <= j < i ==> {
                        let e = old(self).engines@[j];
                        if e.alive {
                            #[trigger] self.engines@[j] == (PlaybackEngine {
                                muted: !e.muted,
                                ..e
                            }) && cmds@[j] == Some(BackendCmd::SetMute(!e.muted))
                        } else {
                            self.engines@[j] == e && cmds@[j] is None
                        }
                    },
                forall|j: int| 0 <= j < n ==> (#[trigger] self.engines@[j]).wf(),
            decreases n - i,
        {
            let c = self.engines[i].toggle_mute();
            cmds.push(c);
            i = i + 1;
        }
        cmds
    }

    /// Sets every live cell's volume to the clamped value.
    pub fn set_volume_all(&mut self, volume: i64) -> (cmds: Vec<Option<BackendCmd>>)
        requires
            old(self).wf(),
        ensures
            final(self).wf(),
            rel_set_volume_all(*old(self), *final(self), cmds@, volume as int),
    {
        let n = self.engines.len();
        let mut cmds: Vec<Option<BackendCmd>> = Vec::new();
        let mut i: usize = 0;
        while i < n
            invariant
                n == self.engines@.len(),
                i <= n,
                cmds@.len() == i,
                self.panel == old(self).panel,
                self.pool == old(self).pool,
                self.config == old(self).config,
                self.selected_row == old(self).selected_row,
                self.selected_col == old(self).selected_col,
                self.is_fullscreen == old(self).is_fullscreen,
                self.is_tile_fullscreen == old(self).is_tile_fullscreen,
                self.fullscreen_cell == old(self).fullscreen_cell,
                forall|j: int| i <= j < n ==> self.engines@[j] == old(self).engines@[j],
                forall|j: int|
                    0 <= j < i ==> {
                        let e = old(self).engines@[j];
                        if e.alive {
                            #[trigger] self.engines@[j] == (PlaybackEngine {
                                volume: clamp_volume(volume as int) as i64,
                                ..e
                            }) && cmds@[j] == Some(
                                BackendCmd::SetVolume(clamp_volume(volume as int) as i64),
                            )
                        } else {
                            self.engines@[j] == e && cmds@[j] is None
                        }
                    },
                forall|j: int| 0 <= j < n ==> (#[trigger] self.engines@[j]).wf(),
            decreases n - i,
        {
            let c = self.engines[i].set_volume(volume);
            cmds.push(c);
            i = i + 1;
        }
        cmds
    }

    /// Raises the master volume one step and pushes it to every cell.
    pub fn volume_up(&mut self) -> (cmds: Vec<Option<BackendCmd>>)
        requires
            old(self).wf(),
        ensures
            final(self).wf(),
            rel_volume_step(*old(self), *final(self), cmds@, true),
    {
        let v: i64 = self.panel.volume + 5;
        let nv: i64 = if v > 100 {
            100
        } else {
            v
        };
        self.panel.volume = nv;
        let cmds = self.set_volume_all(nv);
        let mut msg = String::from_str("Volume: ");
        msg.append(crate::text::u64_dec(nv as u64).as_str());
        msg.append("%");
        self.panel.log(msg.as_str());
        cmds
    }

    /// Lowers the master volume one step and pushes it to every cell.
    pub fn volume_down(&mut self) -> (cmds: Vec<Option<BackendCmd>>)
        requires
            old(self).wf(),
        ensures
            final(self).wf(),
            rel_volume_step(*old(self), *final(self), cmds@, false),
    {
        let v: i64 = self.panel.volume - 5;
        let nv: i64 = if v < 0 {
            0
        } else {
            v
        };
        self.panel.volume = nv;
        let cmds = self.set_volume_all(nv);
        let mut msg = String::from_str("Volume: ");
        msg.append(crate::text::u64_dec(nv as u64).as_str());
        msg.append("%");
        self.panel.log(msg.as_str());
        cmds
    }

    /// Tears the grid down: every engine gets a stop command, the engine
    /// array, selection and pool are emptied, and the released targets come
    /// back for deletion. Safe to call when nothing runs.
    pub fn stop(&mut self) -> (out: StopOutcome)
        requires
            old(self).wf(),
        ensures
            final(self).wf(),
            final(self).engines@.len() == 0,
            final(self).selected_row is None,
            final(self).selected_col is None,
            !final(self).panel.is_running,
            final(self).pool.slots@.len() == 0,
            out.released == old(self).pool.slots,
            out.cmds@.len() == old(self).engines@.len(),
            forall|i: int|
                0 <= i < old(self).engines@.len() ==> out.cmds@[i] == (
                if old(self).engines@[i].alive {
                    Some(BackendCmd::Stop)
                } else {
                    None::<BackendCmd>
                }),
            final(self).config == old(self).config,
            final(self).is_fullscreen == old(self).is_fullscreen,
            final(self).is_tile_fullscreen == old(self).is_tile_fullscreen,
            final(self).fullscreen_cell == old(self).fullscreen_cell,
            final(self).panel == (ControlPanel {
                is_running: false,
                log_message: final(self).panel.log_message,
                ..old(self).panel
            }),
            exists|stamp: Seq<char>|
                stamp.len() == 8 && final(self).panel.log_message@ == seq!['['] + stamp + seq![
                    ']',
                    ' ',
                ] + "Stopped"@,
    {
        let n = self.engines.len();
        let mut cmds: Vec<Option<BackendCmd>> = Vec::new();
        let mut i: usize = 0;
        while i < n
            invariant
                n == self.engines@.len(),
                i <= n,
                cmds@.len() == i,
                *self == *old(self),
                forall|j: int|
                    0 <= j < i ==> cmds@[j] == (if old(self).engines@[j].alive {
                        Some(BackendCmd::Stop)
                    } else {
                        None::<BackendCmd>
                    }),
            decreases n - i,
        {
            cmds.push(self.engines[i].stop());
            i = i + 1;
        }
        self.engines.clear();
        self.selected_row = None;
        self.selected_col = None;
        self.panel.is_running = false;
        self.panel.log("Stopped");
        let released = self.pool.release();
        StopOutcome { cmds, released }
    }

    /// Brings a fresh grid up over the given media files. With no files the
    /// grid is refused and nothing changes but the status line. Otherwise
    /// any running grid is stopped first; then one engine per cell is
    /// built, dead where its backend failed, each live one loaded with its
    /// own shuffled copy of the files, set to the master volume and played;
    /// the created render targets are adopted; and the first cell is
    /// selected.
    pub fn start(
        &mut self,
        files: Vec<String>,
        backend_ok: Vec<bool>,
        render_ok: Vec<bool>,
        targets: Vec<Option<RenderTarget>>,
        width: u32,
        height: u32,
    ) -> (out: StartOutcome)
        requires
            old(self).wf(),
            backend_ok@.len() == (old(self).panel.rows as int) * (old(self).panel.cols as int),
            render_ok@.len() == backend_ok@.len(),
            targets@.len() == backend_ok@.len(),
            forall|i: int|
                0 <= i < targets@.len() && targets@[i] is Some ==> {
                    &&& targets@[i]->0.width == width
                    &&& targets@[i]->0.height == height
                },
        ensures
            final(self).wf(),
            files@.len() == 0 ==> {
                &&& out.error == Some(GridError::EmptyMediaSet)
                &&& out.stop_cmds@.len() == 0
                &&& out.released@.len() == 0
                &&& out.cell_cmds@.len() == 0
                &&& final(self).engines == old(self).engines
                &&& final(self).pool == old(self).pool
                &&& final(self).config == old(self).config
                &&& final(self).selected_row == old(self).selected_row
                &&& final(self).selected_col == old(self).selected_col
                &&& final(self).panel == (ControlPanel {
                    log_message: final(self).panel.log_message,
                    ..old(self).panel
                })
                &&& exists|stamp: Seq<char>|
                    stamp.len() == 8 && final(self).panel.log_message@ == seq!['['] + stamp + seq![
                        ']',
                        ' ',
                    ] + "No media files found!"@
            },
            files@.len() > 0 ==> {
                let rows = old(self).panel.rows as int;
                let cols = old(self).panel.cols as int;
                &&& out.error is None
                &&& out.released == old(self).pool.slots
                &&& out.stop_cmds@.len() == old(self).engines@.len()
                &&& forall|i: int|
                    0 <= i < old(self).engines@.len() ==> out.stop_cmds@[i] == (
                    if old(self).engines@[i].alive {
                        Some(BackendCmd::Stop)
                    } else {
                        None::<BackendCmd>
                    })
                &&& final(self).engines@.len() == rows * cols
                &&& out.cell_cmds@.len() == rows * cols
                &&& forall|idx: int|
                    0 <= idx < rows * cols ==> cell_started(
                        #[trigger] final(self).engines@[idx],
                        out.cell_cmds@[idx]@,
                        idx,
                        cols,
                        files@,
                        backend_ok@[idx],
                        render_ok@[idx],
                        old(self).panel.volume as int,
                        old(self).config,
                    )
                &&& final(self).pool.slots == targets
                &&& final(self).pool.width == width
                &&& final(self).pool.height == height
                &&& final(self).panel.is_running
                &&& final(self).selected_row == Some(0usize)
                &&& final(self).selected_col == Some(0usize)
                &&& final(self).panel == (ControlPanel {
                    is_running: true,
                    selected_path: final(self).panel.selected_path,
                    log_message: final(self).panel.log_message,
                    ..old(self).panel
                })
                &&& final(self).panel.selected_path@.len() == 0
                &&& final(self).config == old(self).config
                &&& exists|stamp: Seq<char>|
                    stamp.len() == 8 && final(self).panel.log_message@ == seq!['['] + stamp + seq![
                        ']',
                        ' ',
                    ] + started_msg(cols, rows)
            },
    {
        if files.len() == 0 {
            self.panel.log("No media files found!");
            return StartOutcome {
                error: Some(GridError::EmptyMediaSet),
                stop_cmds: Vec::new(),
                released: Vec::new(),
                cell_cmds: Vec::new(),
            };
        }
        let stopped = self.stop();
        let rows = self.panel.rows;
        let cols = self.panel.cols;
        proof {
            lemma_cell_index_bounds(rows as int - 1, cols as int - 1, rows as int, cols as int);
        }
        let n: usize = rows * cols;
        let mut cell_cmds: Vec<Vec<BackendCmd>> = Vec::new();
        let mut idx: usize = 0;
        while idx < n
            invariant
                n == rows * cols,
                1 <= rows,
                1 <= cols,
                rows == self.panel.rows,
                cols == self.panel.cols,
                idx <= n,
                self.engines@.len() == idx,
                cell_cmds@.len() == idx,
                backend_ok@.len() == n,
                render_ok@.len() == n,
                files@.len() > 0,
                self.panel == (ControlPanel {
                    is_running: false,
                    log_message: self.panel.log_message,
                    ..old(self).panel
                }),
                !self.panel.is_running,
                self.pool.slots@.len() == 0,
                self.pool.wf(),
                self.selected_row is None,
                self.selected_col is None,
                self.config == old(self).config,
                self.is_fullscreen == old(self).is_fullscreen,
                self.is_tile_fullscreen == old(self).is_tile_fullscreen,
                self.fullscreen_cell == old(self).fullscreen_cell,
                forall|j: int| 0 <= j < idx ==> (#[trigger] self.engines@[j]).wf(),
                forall|j: int|
                    0 <= j < idx ==> cell_started(
                        #[trigger] self.engines@[j],
                        cell_cmds@[j]@,
                        j,
                        cols as int,
                        files@,
                        backend_ok@[j],
                        render_ok@[j],
                        old(self).panel.volume as int,
                        old(self).config,
                    ),
            decreases n - idx,
        {
            let row: usize = idx / cols;
            let col: usize = idx % cols;
            let mut e = PlaybackEngine::new(row, col, &self.config);
            let _ = e.initialize(backend_ok[idx]);
            e.mark_render_context(render_ok[idx]);
            if idx == 0 {
                e.set_selected(true);
            }
            let mut cc: Vec<BackendCmd> = Vec::new();
            if backend_ok[idx] {
                let mut shuffled = clone_paths(&files);
                shuffle_in_place(&mut shuffled);
                let c1 = e.load_playlist(shuffled);
                if let Some(c) = c1 {
                    cc.push(c);
                }
                let c2 = e.set_volume(self.panel.volume);
                if let Some(c) = c2 {
                    cc.push(c);
                }
                let c3 = e.play();
                if let Some(c) = c3 {
                    cc.push(c);
                }
            }
            self.engines.push(e);
            cell_cmds.push(cc);
            idx = idx + 1;
        }
        let _empty_slots = self.pool.allocate(targets, width, height);
        self.panel.is_running = true;
        self.selected_row = Some(0);
        self.selected_col = Some(0);
        self.panel.selected_path = String::new();
        let mut msg = String::from_str("Started ");
        msg.append(crate::text::u64_dec(cols as u64).as_str());
        msg.append("x");
        msg.append(crate::text::u64_dec(rows as u64).as_str());
        msg.append(" grid");
        self.panel.log(msg.as_str());
        StartOutcome {
            error: None,
            stop_cmds: stopped.cmds,
            released: stopped.released,
            cell_cmds,
        }
    }
}

/// A copy of a path list whose entries read the same.
fn clone_paths(v: &Vec<String>) -> (r: Vec<String>)
    ensures
        r@.len() == v@.len(),
        path_views(r@) == path_views(v@),
{
    let n = v.len();
    let mut r: Vec<String> = Vec::new();
    let mut i: usize = 0;
    while i < n
        invariant
            n == v@.len(),
            i <= n,
            r@.len() == i,
            forall|j: int| 0 <= j < i ==> #[trigger] r@[j]@ == v@[j]@,
        decreases n - i,
    {
        r.push(v[i].clone());
        i = i + 1;
    }
    proof {
        assert forall|j: int| 0 <= j < n implies path_views(r@)[j] == path_views(v@)[j] by {
            assert(path_views(r@)[j] == r@[j]@);
            assert(path_views(v@)[j] == v@[j]@);
        }
        assert(path_views(r@) =~= path_views(v@));
    }
    r
}

/// The selection after a navigation step: nothing with no cells, the first
/// cell with no selection yet, else one wrapped step on each axis.
pub open spec fn nav_effect(
    pre: GridCoordinator,
    post: GridCoordinator,
    col_delta: int,
    row_delta: int,
) -> bool {
    &&& (pre.engines@.len() == 0 ==> post == pre)
    &&& (pre.engines@.len() > 0 && spec_sel_index(pre) < 0 ==> select_effect(pre, post, 0, 0))
    &&& (pre.engines@.len() > 0 && spec_sel_index(pre) >= 0 ==> select_effect(
        pre,
        post,
        wrap_coord(pre.selected_row->0 as int, row_delta, pre.panel.rows as int) as usize,
        wrap_coord(pre.selected_col->0 as int, col_delta, pre.panel.cols as int) as usize,
    ))
}

/// A selected-cell action that mutates the engine: every other engine and
/// command slot untouched, the selected engine (when there is one) changed
/// as `e2` and commanded as `c` say.
pub open spec fn rel_selected_mut(
    pre: GridCoordinator,
    post: GridCoordinator,
    cmds: Seq<Option<BackendCmd>>,
    e2_of: spec_fn(PlaybackEngine) -> PlaybackEngine,
    c_of: spec_fn(PlaybackEngine) -> Option<BackendCmd>,
) -> bool {
    let idx = spec_sel_index(pre);
    let n = pre.engines@.len() as int;
    &&& same_but_engines(pre, post)
    &&& cmds.len() == n
    &&& forall|i: int|
        0 <= i < n && i != idx ==> #[trigger] post.engines@[i] == pre.engines@[i] && cmds[i]
            is None
    &&& (0 <= idx < n ==> ({
        let e = pre.engines@[idx];
        if e.alive {
            post.engines@[idx] == e2_of(e) && cmds[idx] == c_of(e)
        } else {
            post.engines@[idx] == e && cmds[idx] is None
        }
    }))
}

/// The status message a screenshot leaves behind.
pub open spec fn rel_screenshot(
    pre: GridCoordinator,
    post: GridCoordinator,
    cmds: Seq<Option<BackendCmd>>,
) -> bool {
    let idx = spec_sel_index(pre);
    let n = pre.engines@.len() as int;
    &&& post.engines == pre.engines
    &&& post.pool == pre.pool
    &&& post.config == pre.config
    &&& post.selected_row == pre.selected_row
    &&& post.selected_col == pre.selected_col
    &&& post.is_fullscreen == pre.is_fullscreen
    &&& post.is_tile_fullscreen == pre.is_tile_fullscreen
    &&& post.fullscreen_cell == pre.fullscreen_cell
    &&& sel_only_cmds(pre, cmds, BackendCmd::Screenshot)
    &&& (0 <= idx < n ==> {
        &&& post.panel == (ControlPanel {
            log_message: post.panel.log_message,
            ..pre.panel
        })
        &&& exists|stamp: Seq<char>|
            stamp.len() == 8 && post.panel.log_message@ == seq!['['] + stamp + seq![']', ' ']
                + "Screenshot taken"@
    })
    &&& (!(0 <= idx < n) ==> post.panel == pre.panel)
}

impl GridCoordinator {
    /// The engine at cell `(row, col)`, while the grid holds one there.
    pub fn cell_at(&self, row: usize, col: usize) -> (r: Option<&PlaybackEngine>)
        requires
            self.wf(),
            row < self.panel.rows,
            col < self.panel.cols,
        ensures
            ({
                let idx = cell_index_of(row as int, col as int, self.panel.cols as int);
                if idx < self.engines@.len() {
                    r is Some && *r->0 == self.engines@[idx]
                } else {
                    r is None
                }
            }),
    {
        proof {
            lemma_cell_index_bounds(
                row as int,
                col as int,
                self.panel.rows as int,
                self.panel.cols as int,
            );
        }
        let idx: usize = row * self.panel.cols + col;
        if idx < self.engines.len() {
            Some(&self.engines[idx])
        } else {
            None
        }
    }

    /// A relative seek on the selected cell.
    pub fn seek_selected(&self, delta_ms: i64) -> (cmds: Vec<Option<BackendCmd>>)
        requires
            self.wf(),
        ensures
            sel_only_cmds(*self, cmds@, BackendCmd::SeekRelativeMs(delta_ms)),
    {
        let n = self.engines.len();
        let mut cmds = Self::no_cmds(n);
        if let Some(idx) = self.selected_index() {
            if idx < n {
                let c = self.engines[idx].seek_relative(delta_ms);
                cmds[idx] = c;
            }
        }
        cmds
    }

    /// Routes one user action: broadcast actions reach every cell, the
    /// fullscreen and navigation ones touch only the coordinator's own
    /// state, and the rest reach the selected cell alone. The returned
    /// commands are index-aligned with the engine array (and empty for the
    /// actions that command no backend).
    pub fn handle_action(&mut self, action: Action) -> (cmds: Vec<Option<BackendCmd>>)
        requires
            old(self).wf(),
        ensures
            final(self).wf(),
            ({
                let pre = *old(self);
                let post = *final(self);
                let n = pre.engines@.len() as int;
                match action {
                    Action::PauseAll => post == pre && cmds@.len() == n && forall|i: int|
                        0 <= i < n ==> cmds@[i] == (if pre.engines@[i].alive {
                            Some(BackendCmd::TogglePause)
                        } else {
                            None::<BackendCmd>
                        }),
                    Action::NextAll => rel_next_all(pre, post, cmds@),
                    Action::PrevAll => rel_prev_all(pre, post, cmds@),
                    Action::ShuffleAll => rel_shuffle_all(pre, post) && cmds@.len() == 0,
                    Action::ShuffleThenNextAll => exists|mid: GridCoordinator|
                        #[trigger] rel_shuffle_all(pre, mid) && rel_next_all(mid, post, cmds@),
                    Action::FullscreenGlobal => post == (GridCoordinator {
                        is_fullscreen: !pre.is_fullscreen,
                        ..pre
                    }) && cmds@.len() == 0,
                    Action::ExitFullscreen => post == (GridCoordinator {
                        is_fullscreen: false,
                        is_tile_fullscreen: false,
                        fullscreen_cell: if pre.is_tile_fullscreen {
                            None
                        } else {
                            pre.fullscreen_cell
                        },
                        ..pre
                    }) && cmds@.len() == 0,
                    Action::VolumeUp => rel_volume_step(pre, post, cmds@, true),
                    Action::VolumeDown => rel_volume_step(pre, post, cmds@, false),
                    Action::MuteAll => rel_mute_all(pre, post, cmds@),
                    Action::NavigateUp => nav_effect(pre, post, 0, -1) && cmds@.len() == 0,
                    Action::NavigateDown => nav_effect(pre, post, 0, 1) && cmds@.len() == 0,
                    Action::NavigateLeft => nav_effect(pre, post, -1, 0) && cmds@.len() == 0,
                    Action::NavigateRight => nav_effect(pre, post, 1, 0) && cmds@.len() == 0,
                    Action::FullscreenSelected => cmds@.len() == 0 && (
                    if pre.is_tile_fullscreen {
                        post == (GridCoordinator {
                            is_tile_fullscreen: false,
                            fullscreen_cell: None,
                            ..pre
                        })
                    } else if spec_sel_index(pre) >= 0 {
                        post == (GridCoordinator {
                            is_tile_fullscreen: true,
                            is_fullscreen: true,
                            fullscreen_cell: Some((pre.selected_row->0, pre.selected_col->0)),
                            ..pre
                        })
                    } else {
                        post == pre
                    }),
                    Action::SeekForward => post == pre && sel_only_cmds(
                        pre,
                        cmds@,
                        BackendCmd::SeekRelativeMs(5000),
                    ),
                    Action::SeekBackward => post == pre && sel_only_cmds(
                        pre,
                        cmds@,
                        BackendCmd::SeekRelativeMs(-5000i64),
                    ),
                    Action::FrameStepForward => post == pre && sel_only_cmds(
                        pre,
                        cmds@,
                        BackendCmd::FrameStep,
                    ),
                    Action::FrameStepBackward => post == pre && sel_only_cmds(
                        pre,
                        cmds@,
                        BackendCmd::FrameBackStep,
                    ),
                    Action::ToggleLoop => rel_selected_mut(
                        pre,
                        post,
                        cmds@,
                        |e: PlaybackEngine| (PlaybackEngine {
                            loop_enabled: !e.loop_enabled,
                            ..e
                        }),
                        |e: PlaybackEngine| Some(BackendCmd::SetLoop(!e.loop_enabled)),
                    ),
                    Action::ZoomIn => rel_selected_mut(
                        pre,
                        post,
                        cmds@,
                        |e: PlaybackEngine| (PlaybackEngine {
                            zoom_tenths: (if e.zoom_tenths < i64::MAX {
                                e.zoom_tenths + 1
                            } else {
                                e.zoom_tenths as int
                            }) as i64,
                            ..e
                        }),
                        |e: PlaybackEngine| Some(
                            BackendCmd::SetZoomTenths(
                                (if e.zoom_tenths < i64::MAX {
                                    e.zoom_tenths + 1
                                } else {
                                    e.zoom_tenths as int
                                }) as i64,
                            ),
                        ),
                    ),
                    Action::ZoomOut => rel_selected_mut(
                        pre,
                        post,
                        cmds@,
                        |e: PlaybackEngine| (PlaybackEngine {
                            zoom_tenths: (if e.zoom_tenths > i64::MIN {
                                e.zoom_tenths - 1
                            } else {
                                e.zoom_tenths as int
                            }) as i64,
                            ..e
                        }),
                        |e: PlaybackEngine| Some(
                            BackendCmd::SetZoomTenths(
                                (if e.zoom_tenths > i64::MIN {
                                    e.zoom_tenths - 1
                                } else {
                                    e.zoom_tenths as int
                                }) as i64,
                            ),
                        ),
                    ),
                    Action::Rotate => rel_selected_mut(
                        pre,
                        post,
                        cmds@,
                        |e: PlaybackEngine| (PlaybackEngine {
                            rotation_degrees: ((e.rotation_degrees + 90) % 360) as u32,
                            ..e
                        }),
                        |e: PlaybackEngine| Some(
                            BackendCmd::SetRotation(((e.rotation_degrees + 90) % 360) as u32),
                        ),
                    ),
                    Action::Screenshot => rel_screenshot(pre, post, cmds@),
                }
            }),
    {
        match action {
            Action::PauseAll => self.play_pause_all(),
            Action::NextAll => self.next_all_if_not_looping(),
            Action::PrevAll => self.prev_all(),
            Action::ShuffleAll => {
                self.shuffle_all();
                Vec::new()
            },
            Action::ShuffleThenNextAll => {
                self.shuffle_all();
                let ghost mid = *self;
                let cmds = self.next_all_if_not_looping();
                proof {
                    assert(rel_shuffle_all(*old(self), mid) && rel_next_all(mid, *self, cmds@));
                }
                cmds
            },
            Action::FullscreenGlobal => {
                self.toggle_fullscreen();
                Vec::new()
            },
            Action::ExitFullscreen => {
                self.exit_fullscreen();
                Vec::new()
            },
            Action::VolumeUp => self.volume_up(),
            Action::VolumeDown => self.volume_down(),
            Action::MuteAll => self.mute_all(),
            Action::NavigateUp => {
                self.navigate_selection(0, -1);
                Vec::new()
            },
            Action::NavigateDown => {
                self.navigate_selection(0, 1);
                Vec::new()
            },
            Action::NavigateLeft => {
                self.navigate_selection(-1, 0);
                Vec::new()
            },
            Action::NavigateRight => {
                self.navigate_selection(1, 0);
                Vec::new()
            },
            Action::FullscreenSelected => {
                self.toggle_tile_fullscreen();
                Vec::new()
            },
            Action::SeekForward => self.seek_selected(5000),
            Action::SeekBackward => self.seek_selected(-5000),
            Action::FrameStepForward => {
                let n = self.engines.len();
                let mut cmds = Self::no_cmds(n);
                if let Some(idx) = self.selected_index() {
                    if idx < n {
                        let c = self.engines[idx].frame_step();
                        cmds[idx] = c;
                    }
                }
                cmds
            },
            Action::FrameStepBackward => {
                let n = self.engines.len();
                let mut cmds = Self::no_cmds(n);
                if let Some(idx) = self.selected_index() {
                    if idx < n {
                        let c = self.engines[idx].frame_back_step();
                        cmds[idx] = c;
                    }
                }
                cmds
            },
            Action::ToggleLoop => {
                let n = self.engines.len();
                let mut cmds = Self::no_cmds(n);
                if let Some(idx) = self.selected_index() {
                    if idx < n {
                        let c = self.engines[idx].toggle_loop();
                        cmds[idx] = c;
                    }
                }
                cmds
            },
            Action::ZoomIn => {
                let n = self.engines.len();
                let mut cmds = Self::no_cmds(n);
                if let Some(idx) = self.selected_index() {
                    if idx < n {
                        let c = self.engines[idx].zoom_in();
                        cmds[idx] = c;
                    }
                }
                cmds
            },
            Action::ZoomOut => {
                let n = self.engines.len();
                let mut cmds = Self::no_cmds(n);
                if let Some(idx) = self.selected_index() {
                    if idx < n {
                        let c = self.engines[idx].zoom_out();
                        cmds[idx] = c;
                    }
                }
                cmds
            },
            Action::Rotate => {
                let n = self.engines.len();
                let mut cmds = Self::no_cmds(n);
                if let Some(idx) = self.selected_index() {
                    if idx < n {
                        let c = self.engines[idx].rotate();
                        cmds[idx] = c;
                    }
                }
                cmds
            },
            Action::Screenshot => {
                let n = self.engines.len();
                let mut cmds = Self::no_cmds(n);
                if let Some(idx) = self.selected_index() {
                    if idx < n {
                        let c = self.engines[idx].screenshot();
                        cmds[idx] = c;
                        self.panel.log("Screenshot taken");
                    }
                }
                cmds
            },
        }
    }
}

/// Navigation can never escape the grid: a wrapped step from any position
/// with any delta lands inside `0..n`. Since every selection is made
/// through `select_cell` at wrapped coordinates, any sequence of navigate
/// calls keeps the selected cell's row inside `rows` and its column inside
/// `cols`.
pub proof fn lemma_navigate_stays_in_bounds(pos: int, delta: int, n: int)
    requires
        n >= 1,
    ensures
        0 <= wrap_coord(pos, delta, n) < n,
{
    lemma_mod_bound(pos + delta, n);
}

/// A configured grid dimension after clamping into the valid range.
pub open spec fn dim_from_config(d: int) -> int {
    if d < 1 {
        1
    } else if d > MAX_GRID_DIM {
        MAX_GRID_DIM as int
    } else {
        d
    }
}

/// Holds a configured dimension to `1..=MAX_GRID_DIM`.
fn clamp_dim(d: u32) -> (r: usize)
    ensures
        r == dim_from_config(d as int),
        1 <= r <= MAX_GRID_DIM,
{
    if d < 1 {
        1
    } else if d > 65535 {
        MAX_GRID_DIM
    } else {
        d as usize
    }
}

/// A cell inside the grid has its flat index inside `rows * cols`.
proof fn lemma_cell_index_bounds(row: int, col: int, rows: int, cols: int)
    requires
        0 <= row < rows,
        0 <= col < cols,
        rows <= MAX_GRID_DIM,
        cols <= MAX_GRID_DIM,
    ensures
        0 <= cell_index_of(row, col, cols) < rows * cols,
        rows * cols <= usize::MAX,
{
    assert(row * cols + col < rows * cols && rows * cols <= MAX_GRID_DIM * MAX_GRID_DIM)
        by (nonlinear_arith)
        requires
            0 <= row < rows,
            0 <= col < cols,
            rows <= MAX_GRID_DIM,
            cols <= MAX_GRID_DIM,
    ;
}

/// A valid selection's flat index is in bounds as well.
proof fn lemma_sel_index_bounds(c: GridCoordinator)
    requires
        c.wf(),
    ensures
        spec_sel_index(c) == -1 || (0 <= spec_sel_index(c) < (c.panel.rows as int) * (
        c.panel.cols as int) && (c.panel.rows as int) * (c.panel.cols as int) <= usize::MAX),
{
    if c.selected_row is Some && c.selected_col is Some {
        lemma_cell_index_bounds(
            c.selected_row->0 as int,
            c.selected_col->0 as int,
            c.panel.rows as int,
            c.panel.cols as int,
        );
    }
}

} // verus!
