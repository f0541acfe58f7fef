//! Health telemetry windows: frame counters, the once-per-second emission
//! rule and percentile positions in sorted latency samples.

use vstd::prelude::*;

verus! {

/// Latency samples kept for percentiles.
pub const MAX_LATENCY_SAMPLES: usize = 240;
/// Shortest time between two health reports.
pub const EMIT_INTERVAL_MS: u64 = 1000;

/// Frame counters of the current reporting window.
#[derive(Debug, Clone, Copy, PartialEq, Eq, Structural)]
pub struct HealthWindow {
    pub window_in_count: u64,
    pub window_out_count: u64,
    pub dropped_frames: u64,
    pub last_emit_ms: u64,
}

/// Counters reported for a window.
#[derive(Debug, Clone, Copy, PartialEq, Eq, Structural)]
pub struct WindowReport {
    pub ts_ms: u64,
    pub in_count: u64,
    pub out_count: u64,
    pub dropped_frames: u64,
    /// Length of the window in milliseconds; `None` for the first report,
    /// whose window counts as one second.
    pub window_ms: Option<u64>,
}

pub open spec fn sat_sub(a: u64, b: u64) -> u64 {
    if a >= b { (a - b) as u64 } else { 0 }
}

/// A report is due unless one was sent less than the interval ago (a last
/// report at time zero counts as none).
pub open spec fn emit_due(last_emit_ms: u64, ts: u64) -> bool {
    last_emit_ms == 0 || sat_sub(ts, last_emit_ms) >= EMIT_INTERVAL_MS
}

impl HealthWindow {
    pub open spec fn fresh() -> HealthWindow {
        HealthWindow { window_in_count: 0, window_out_count: 0, dropped_frames: 0, last_emit_ms: 0 }
    }

    pub open spec fn on_frame_spec(self, emitted_output: bool, dropped: bool) -> HealthWindow {
        HealthWindow {
            window_in_count: (self.window_in_count + 1) as u64,
            window_out_count: if emitted_output { (self.window_out_count + 1) as u64 } else { self.window_out_count },
            dropped_frames: if dropped { (self.dropped_frames + 1) as u64 } else { self.dropped_frames },
            last_emit_ms: self.last_emit_ms,
        }
    }

    pub open spec fn maybe_emit_spec(self, ts: u64) -> (HealthWindow, Option<WindowReport>) {
        if !emit_due(self.last_emit_ms, ts) {
            (self, None)
        } else {
            (
                HealthWindow { window_in_count: 0, window_out_count: 0, last_emit_ms: ts, ..self },
                Some(WindowReport {
                    ts_ms: ts,
                    in_count: self.window_in_count,
                    out_count: self.window_out_count,
                    dropped_frames: self.dropped_frames,
                    window_ms: if self.last_emit_ms == 0 { None } else { Some(sat_sub(ts, self.last_emit_ms)) },
                }),
            )
        }
    }

    /// Empty counters, nothing reported yet.
    pub fn new() -> (w: HealthWindow)
        ensures
            w == HealthWindow::fresh(),
    {
        HealthWindow { window_in_count: 0, window_out_count: 0, dropped_frames: 0, last_emit_ms: 0 }
    }

    /// Counts a processed frame, whether it produced output and whether the
    /// tracker dropped it.
    pub fn on_frame(&mut self, emitted_output: bool, dropped: bool)
        requires
            old(self).window_in_count < u64::MAX,
            old(self).window_out_count < u64::MAX,
            old(self).dropped_frames < u64::MAX,
        ensures
            *final(self) == old(self).on_frame_spec(emitted_output, dropped),
    {
        self.window_in_count = self.window_in_count + 1;
        if emitted_output {
            self.window_out_count = self.window_out_count + 1;
        }
        if dropped {
            self.dropped_frames = self.dropped_frames + 1;
        }
    }

    /// Closes the window when a report is due: returns its counters and
    /// starts a new window; dropped frames keep counting over the lifetime.
    pub fn maybe_emit(&mut self, ts_ms: u64) -> (r: Option<WindowReport>)
        ensures
            (*final(self), r) == old(self).maybe_emit_spec(ts_ms),
    {
        if self.last_emit_ms != 0 && ts_ms.saturating_sub(self.last_emit_ms) < EMIT_INTERVAL_MS {
            return None;
        }
        let window_ms = if self.last_emit_ms == 0 {
            None
        } else {
            Some(ts_ms.saturating_sub(self.last_emit_ms))
        };
        self.last_emit_ms = ts_ms;
        let report = WindowReport {
            ts_ms,
            in_count: self.window_in_count,
            out_count: self.window_out_count,
            dropped_frames: self.dropped_frames,
            window_ms,
        };
        self.window_in_count = 0;
        self.window_out_count = 0;
        Some(report)
    }
}

/// Reports come at most once per interval, each covers only the frames
/// counted since the previous report, and the dropped-frame count never
/// decreases.
pub proof fn lemma_reports_cover_their_window(w: HealthWindow, ts1: u64, ts2: u64)
    requires
        ts1 != 0,
        w.maybe_emit_spec(ts1).1 is Some,
    ensures
        ({
            let (w1, r1) = w.maybe_emit_spec(ts1);
            &&& r1->0.in_count == w.window_in_count
            &&& w1.window_in_count == 0 && w1.window_out_count == 0
            &&& w1.dropped_frames == w.dropped_frames
            &&& sat_sub(ts2, ts1) < EMIT_INTERVAL_MS ==> w1.maybe_emit_spec(ts2).1 is None
        }),
{
}

/// Position of the `percent` percentile in `len` sorted samples: the sample
/// nearest to `percent`% of the way from the first to the last, halves
/// rounding up.
pub open spec fn percentile_index_spec(len: nat, percent: nat) -> nat {
    let idx = (percent * ((len - 1) as nat) + 50) / 100;
    if idx > (len - 1) as nat { (len - 1) as nat } else { idx }
}

/// Index of a percentile in sorted samples. For the median and the 95th
/// percentile over up to 2^23 samples it matches rounding the product in
/// single precision.
pub fn percentile_index(len: usize, percent: u8) -> (i: usize)
    requires
        len > 0,
        percent <= 100,
    ensures
        i == percentile_index_spec(len as nat, percent as nat),
        i < len,
{
    let p: u128 = percent as u128;
    let n: u128 = (len - 1) as u128;
    assert(p * n <= 100 * 0xffff_ffff_ffff_ffffu128) by (nonlinear_arith)
        requires
            p <= 100,
            n <= 0xffff_ffff_ffff_ffffu128,
    ;
    let scaled: u128 = p * n + 50;
    let idx: u128 = scaled / 100;
    assert(idx <= n) by (nonlinear_arith)
        requires
            idx == scaled / 100,
            scaled == p * n + 50,
            p <= 100,
    {
        assert(scaled <= 100 * n + 50);
        assert(idx * 100 <= scaled);
    }
    idx as usize
}

} // verus!
