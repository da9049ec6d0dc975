//! The user-facing action set. Broadcast actions go to every cell;
//! navigation moves the selection; the rest apply to the selected cell
//! alone and do nothing while nothing is selected.

use vstd::prelude::*;

verus! {

#[derive(Debug, Clone, Copy, PartialEq, Eq, Hash, Structural)]
pub enum Action {
    // Actions applied to every cell.
    PauseAll,
    NextAll,
    PrevAll,
    ShuffleAll,
    ShuffleThenNextAll,
    FullscreenGlobal,
    ExitFullscreen,
    VolumeUp,
    VolumeDown,
    MuteAll,
    // Selection movement.
    NavigateUp,
    NavigateDown,
    NavigateLeft,
    NavigateRight,
    // Actions on the selected cell.
    FullscreenSelected,
    SeekForward,
    SeekBackward,
    FrameStepForward,
    FrameStepBackward,
    ToggleLoop,
    ZoomIn,
    ZoomOut,
    Rotate,
    Screenshot,
}

} // verus!
