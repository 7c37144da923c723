use stalled_download::error::{
    ApiError, IoCause, IoError, IoErrorKind, StalledError, WrapApiError,
};
use stalled_download::window::{
    ByteWindow, ReadStatus, WindowEvent, WindowPolicy, PROGRESS_INTERVAL_MS, STALL_INTERVAL_MS,
};

fn read(w: &mut ByteWindow, bytes: usize, ticked: bool) -> WindowEvent {
    let status = ReadStatus::classify(true, false, 0, bytes);
    w.on_poll(status, 0, bytes, ticked)
}

#[test]
fn counter_starts_empty_and_resets_on_each_firing() {
    let mut w = ByteWindow::stall();
    assert_eq!(w.interval_bytes, 0);
    read(&mut w, 7, false);
    assert_eq!(w.interval_bytes, 7);
    read(&mut w, 3, true);
    assert_eq!(w.interval_bytes, 0);
    let mut p = ByteWindow::progress();
    read(&mut p, 0, true);
    assert_eq!(p.interval_bytes, 0);
}

#[test]
fn report_rate_is_ten_times_window_count() {
    let mut p = ByteWindow::progress();
    read(&mut p, 40, false);
    assert_eq!(read(&mut p, 2, true), WindowEvent::Report(420));
    assert_eq!(read(&mut p, 0, true), WindowEvent::Report(0));
}

#[test]
fn empty_window_stalls_and_busy_window_does_not() {
    let mut w = ByteWindow::stall();
    assert_eq!(read(&mut w, 1, true), WindowEvent::Forward);
    assert_eq!(w.on_poll(ReadStatus::Pending, 5, 5, true), WindowEvent::Stalled);
}

#[test]
fn end_of_stream_is_never_a_stall() {
    let mut w = ByteWindow::stall();
    let status = ReadStatus::classify(true, false, 0, 0);
    assert_eq!(status, ReadStatus::EndOfStream);
    assert_eq!(w.on_poll(status, 0, 0, true), WindowEvent::Forward);
}

#[test]
fn classify_covers_each_status() {
    assert_eq!(ReadStatus::classify(false, false, 0, 0), ReadStatus::Pending);
    assert_eq!(ReadStatus::classify(true, true, 0, 0), ReadStatus::Failed);
    assert_eq!(ReadStatus::classify(true, false, 2, 9), ReadStatus::Filled);
    assert_eq!(ReadStatus::classify(true, false, 9, 9), ReadStatus::EndOfStream);
}

#[test]
fn counter_saturates() {
    let mut w = ByteWindow::progress();
    w.interval_bytes = u64::MAX - 1;
    read(&mut w, 5, false);
    assert_eq!(w.interval_bytes, u64::MAX);
    assert_eq!(read(&mut w, 0, true), WindowEvent::Report(u64::MAX as u128 * 10));
}

#[test]
fn intervals_and_first_firing() {
    let p = ByteWindow::progress();
    let s = ByteWindow::stall();
    assert_eq!(p.policy, WindowPolicy::Report);
    assert_eq!(s.policy, WindowPolicy::AbortOnStall);
    assert_eq!(p.interval_ms(), 100);
    assert_eq!(s.interval_ms(), 5000);
    assert_eq!(p.first_tick_ms(), 0);
    assert_eq!(s.first_tick_ms(), 5000);
}

/// Simulates a source that delivers `chunk` bytes every 100 ms until `stop_ms`,
/// read through a progress monitor and then a stall monitor, each with its own
/// timer, polled every 100 ms. Returns the reports, with their times, and the
/// time of the stall, if any came before `end_ms`.
fn simulate(chunk: usize, stop_ms: u64, end_ms: u64) -> (Vec<(u64, u128)>, Option<u64>) {
    let mut progress = ByteWindow::progress();
    let mut stall = ByteWindow::stall();
    let mut next_progress = progress.first_tick_ms();
    let mut next_stall = stall.first_tick_ms();
    let mut reports = Vec::new();
    let mut t: u64 = PROGRESS_INTERVAL_MS;
    while t <= end_ms {
        let bytes = if t <= stop_ms { chunk } else { 0 };
        let status = if bytes > 0 { ReadStatus::Filled } else { ReadStatus::Pending };
        let p_tick = next_progress <= t;
        if p_tick {
            next_progress += progress.interval_ms();
        }
        if let WindowEvent::Report(rate) = progress.on_poll(status, 0, bytes, p_tick) {
            reports.push((t, rate));
        }
        let s_tick = next_stall <= t;
        if s_tick {
            next_stall += stall.interval_ms();
        }
        if stall.on_poll(status, 0, bytes, s_tick) == WindowEvent::Stalled {
            return (reports, Some(t));
        }
        t += PROGRESS_INTERVAL_MS;
    }
    (reports, None)
}

#[test]
fn end_to_end_stall_after_one_second() {
    let (reports, stalled_at) = simulate(100_000, 1000, 20_000);
    let busy: Vec<_> = reports.iter().filter(|r| r.0 <= 1000).collect();
    assert_eq!(busy.len(), 10);
    assert!(busy.iter().all(|r| r.1 == 1_000_000));
    let at = stalled_at.expect("the stall must be detected");
    assert!(at >= 1000 + STALL_INTERVAL_MS && at <= 1000 + 2 * STALL_INTERVAL_MS);
}

#[test]
fn steady_source_never_stalls() {
    let (_, stalled_at) = simulate(1, 60_000, 60_000);
    assert_eq!(stalled_at, None);
}

#[test]
fn stall_detection_bound_holds_for_each_stop_time() {
    let mut stop: u64 = 100;
    while stop <= 12_000 {
        let (_, at) = simulate(10, stop, 40_000);
        let at = at.unwrap();
        assert!(at >= stop + STALL_INTERVAL_MS, "stop {stop} at {at}");
        assert!(at <= stop + 2 * STALL_INTERVAL_MS, "stop {stop} at {at}");
        stop += 100;
    }
}

#[test]
fn zero_byte_source_completes() {
    let mut stall = ByteWindow::stall();
    let mut progress = ByteWindow::progress();
    let status = ReadStatus::classify(true, false, 0, 0);
    assert_eq!(progress.on_poll(status, 0, 0, true), WindowEvent::Report(0));
    assert_eq!(stall.on_poll(status, 0, 0, false), WindowEvent::Forward);
    assert_eq!(stall.on_poll(status, 0, 0, true), WindowEvent::Forward);
}

#[test]
fn stalled_error_message_and_classification() {
    assert_eq!(StalledError {}.message(), "StalledError\n");
    let e = IoError::stalled();
    assert_eq!(e.kind, IoErrorKind::TimedOut);
    assert!(e.is_stalled());
    let other = IoError { kind: IoErrorKind::TimedOut, cause: IoCause::Message("late".to_string()) };
    assert!(!other.is_stalled());
}

#[test]
fn errors_collapse_into_api_error() {
    let e = IoError::stalled();
    assert_eq!(ApiError::wrap(e.clone()), ApiError::WrappedError(e.clone()));
    let ok: Result<u8, IoError> = Ok(4);
    assert_eq!(ok.wrap_api_err(), Ok(4));
    let err: Result<u8, IoError> = Err(e.clone());
    assert_eq!(err.wrap_api_err(), Err(ApiError::WrappedError(e)));
}
