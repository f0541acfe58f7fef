use tracking_core::telemetry::{percentile_index, HealthWindow, WindowReport};

#[test]
fn reports_rates_for_emit_window_not_lifetime_counts() {
    let mut tracker = HealthWindow::new();

    for _ in 0..30 {
        tracker.on_frame(true, false);
    }
    let first = tracker.maybe_emit(1_000).expect("first metrics");
    assert_eq!(first.in_count, 30);
    assert_eq!(first.out_count, 30);
    assert_eq!(first.window_ms, None);

    for _ in 0..15 {
        tracker.on_frame(false, false);
    }
    let second = tracker.maybe_emit(2_000).expect("second metrics");
    assert_eq!(second.in_count, 15);
    assert_eq!(second.out_count, 0);
    assert_eq!(second.window_ms, Some(1_000));
}

#[test]
fn health_reports_wait_a_second_and_keep_dropped_count() {
    let mut w = HealthWindow::new();
    w.on_frame(false, true);
    assert_eq!(
        w.maybe_emit(500),
        Some(WindowReport {
            ts_ms: 500,
            in_count: 1,
            out_count: 0,
            dropped_frames: 1,
            window_ms: None
        })
    );
    w.on_frame(true, true);
    assert_eq!(w.maybe_emit(1_499), None);
    let r = w.maybe_emit(1_500).expect("due");
    assert_eq!(r.dropped_frames, 2);
    assert_eq!(r.in_count, 1);
}

#[test]
fn percentile_positions_round_half_up() {
    assert_eq!(percentile_index(1, 50), 0);
    assert_eq!(percentile_index(2, 50), 1);
    assert_eq!(percentile_index(5, 50), 2);
    assert_eq!(percentile_index(5, 95), 4);
    assert_eq!(percentile_index(11, 95), 10);
    assert_eq!(percentile_index(240, 95), 227);
    assert_eq!(percentile_index(240, 50), 120);
    assert_eq!(percentile_index(3, 100), 2);
}
