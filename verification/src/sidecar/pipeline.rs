//! The sidecar's mock tracker schedule.

use vstd::prelude::*;

verus! {

/// Where the thumb of a mock frame sits.
#[derive(Debug, Clone, Copy, PartialEq, Eq, Structural)]
pub enum MockThumb {
    /// Away from the index tip.
    Rest,
    /// On the index tip, tightly.
    TightPinch,
    /// On the index tip, slightly apart.
    LoosePinch,
    /// Spread wide, with the whole palm open.
    Spread,
}

/// Shape of a sidecar mock frame.
#[derive(Debug, Clone, Copy, PartialEq, Eq, Structural)]
pub enum MockShape {
    Dropped,
    /// Two fingers up; with an open palm, all four and the thumb spread.
    Hand { open_palm: bool, thumb: MockThumb },
}

pub open spec fn mock_shape_spec(frame_id: u64) -> MockShape {
    if frame_id % 450 >= 430 {
        MockShape::Dropped
    } else {
        let open = 540 < frame_id % 600 && frame_id % 600 < 575;
        let cycle = frame_id % 180;
        MockShape::Hand {
            open_palm: open,
            thumb: if open {
                MockThumb::Spread
            } else if cycle == 40 || cycle == 41 {
                MockThumb::TightPinch
            } else if cycle == 56 || cycle == 57 {
                MockThumb::LoosePinch
            } else {
                MockThumb::Rest
            },
        }
    }
}

/// The sidecar's deterministic tracker.
#[derive(Debug, Clone, Copy, PartialEq, Eq, Structural)]
pub struct MockTracker;

impl MockTracker {
    pub fn new() -> (t: Self)
        ensures
            t == MockTracker,
    {
        MockTracker
    }

    /// Shape of the given frame of the mock cycle.
    pub fn shape(&self, frame_id: u64) -> (s: MockShape)
        ensures
            s == mock_shape_spec(frame_id),
    {
        if frame_id % 450 >= 430 {
            return MockShape::Dropped;
        }
        let m = frame_id % 600;
        let open = 540 < m && m < 575;
        let cycle = frame_id % 180;
        let thumb = if open {
            MockThumb::Spread
        } else if cycle == 40 || cycle == 41 {
            MockThumb::TightPinch
        } else if cycle == 56 || cycle == 57 {
            MockThumb::LoosePinch
        } else {
            MockThumb::Rest
        };
        MockShape::Hand { open_palm: open, thumb }
    }
}

} // verus!
