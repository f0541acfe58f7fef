//! The sidecar's lifetime health counters.

use crate::telemetry::{emit_due, EMIT_INTERVAL_MS};
use vstd::prelude::*;

verus! {

/// Frame counters over the sidecar's lifetime.
#[derive(Debug, Clone, Copy, PartialEq, Eq, Structural)]
pub struct SidecarHealth {
    pub in_count: u64,
    pub out_count: u64,
    pub dropped_frames: u64,
    pub last_emit_ms: u64,
}

/// Counters of one health event.
#[derive(Debug, Clone, Copy, PartialEq, Eq, Structural)]
pub struct SidecarHealthReport {
    pub ts_ms: u64,
    pub in_count: u64,
    pub out_count: u64,
    pub dropped_frames: u64,
}

impl SidecarHealth {
    pub open spec fn fresh() -> SidecarHealth {
        SidecarHealth { in_count: 0, out_count: 0, dropped_frames: 0, last_emit_ms: 0 }
    }

    /// Nothing counted, nothing reported.
    pub fn new() -> (h: SidecarHealth)
        ensures
            h == SidecarHealth::fresh(),
    {
        SidecarHealth { in_count: 0, out_count: 0, dropped_frames: 0, last_emit_ms: 0 }
    }

    /// Counts a frame.
    pub fn on_frame(&mut self, had_output: bool, dropped: bool)
        requires
            old(self).in_count < u64::MAX,
            old(self).out_count < u64::MAX,
            old(self).dropped_frames < u64::MAX,
        ensures
            final(self).in_count == old(self).in_count + 1,
            final(self).out_count == old(self).out_count + (if had_output { 1int } else { 0int }),
            final(self).dropped_frames == old(self).dropped_frames + (if dropped { 1int } else { 0int }),
            final(self).last_emit_ms == old(self).last_emit_ms,
    {
        self.in_count = self.in_count + 1;
        if had_output {
            self.out_count = self.out_count + 1;
        }
        if dropped {
            self.dropped_frames = self.dropped_frames + 1;
        }
    }

    /// Reports the lifetime counters when a report is due; the counters are
    /// not reset.
    pub fn maybe_emit(&mut self, ts_ms: u64) -> (r: Option<SidecarHealthReport>)
        ensures
            emit_due(old(self).last_emit_ms, ts_ms) ==> {
                &&& r == Some(SidecarHealthReport {
                    ts_ms,
                    in_count: old(self).in_count,
                    out_count: old(self).out_count,
                    dropped_frames: old(self).dropped_frames,
                })
                &&& *final(self) == (SidecarHealth { last_emit_ms: ts_ms, ..*old(self) })
            },
            !emit_due(old(self).last_emit_ms, ts_ms) ==> (r is None && *final(self) == *old(self)),
    {
        if self.last_emit_ms != 0 && ts_ms.saturating_sub(self.last_emit_ms) < EMIT_INTERVAL_MS {
            return None;
        }
        self.last_emit_ms = ts_ms;
        Some(SidecarHealthReport {
            ts_ms,
            in_count: self.in_count,
            out_count: self.out_count,
            dropped_frames: self.dropped_frames,
        })
    }
}

} // verus!
