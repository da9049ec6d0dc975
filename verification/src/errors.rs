//! The error taxonomy of the core. None of these is fatal: a failed backend
//! or render target degrades one cell, an unwanted command is ignored, and an
//! empty media set merely keeps the grid from starting.

use vstd::prelude::*;

verus! {

/// What can go wrong while a grid is brought up or driven.
#[derive(Debug, Clone, Copy, PartialEq, Eq, Structural)]
pub enum GridError {
    /// A cell's playback backend could not be constructed; the cell is dead,
    /// its siblings go on.
    BackendInitError,
    /// A GPU target could not be created or read back; the cell shows a
    /// placeholder.
    RenderTargetError,
    /// The backend refused a transport or property command; ignored.
    CommandRejected,
    /// No media files were found at grid start; the grid does not start.
    EmptyMediaSet,
}

impl GridError {
    /// A short status-line description of the error.
    pub fn describe(&self) -> (r: &'static str)
        ensures
            *self is BackendInitError ==> r@ == "playback backend failed to start"@,
            *self is RenderTargetError ==> r@ == "render target unavailable"@,
            *self is CommandRejected ==> r@ == "command rejected by backend"@,
            *self is EmptyMediaSet ==> r@ == "No media files found!"@,
    {
        match self {
            GridError::BackendInitError => "playback backend failed to start",
            GridError::RenderTargetError => "render target unavailable",
            GridError::CommandRejected => "command rejected by backend",
            GridError::EmptyMediaSet => "No media files found!",
        }
    }
}

} // verus!
