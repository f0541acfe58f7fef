//! Vocabulary of the sidecar's IPC stream.

use vstd::prelude::*;

verus! {

/// Tracking state carried by each tracking event.
#[derive(Debug, Clone, Copy, PartialEq, Eq, Structural)]
pub enum TrackingState {
    Tracking,
    Lost,
    PausedCandidate,
}

/// Kind of a control intent sent by the sidecar.
#[derive(Debug, Clone, Copy, PartialEq, Eq, Structural)]
pub enum ControlType {
    MoveActiveOn,
    MoveActiveOff,
    MoveDelta,
    Click,
    DoubleClick,
    PauseRequest,
}

} // verus!
