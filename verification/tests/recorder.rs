use yield_bench::recorder::{Recorder, BATCH_SIZE};
use yield_bench::report::Report;

fn recorder(batch_size: usize) -> Recorder {
    match Recorder::new(batch_size) {
        Some(recorder) => recorder,
        None => panic!("no recorder for a batch of {} iterations", batch_size),
    }
}

#[test]
fn fresh_recorder_has_seen_nothing() {
    let r = recorder(5);
    assert_eq!(r.count(), 0);
    assert_eq!(r.batch_size(), 5);
    assert_eq!(r.last_instant(), 0);
}

#[test]
fn default_recorder_uses_the_standard_batch() {
    let r = Recorder::default();
    assert_eq!(BATCH_SIZE, 5_000_000);
    assert_eq!(r.batch_size(), BATCH_SIZE);
    assert_eq!(r.count(), 0);
    assert_eq!(r.last_instant(), 0);
}

#[test]
fn no_recorder_for_an_empty_batch() {
    assert!(Recorder::new(0).is_none());
    assert!(Recorder::new(1).is_some());
    assert!(Recorder::new(usize::MAX).is_some());
}

#[test]
fn four_iterations_of_five_report_nothing() {
    let mut r = recorder(5);
    for n in 1..=4usize {
        assert_eq!(r.iteration(), None);
        assert_eq!(r.count(), n);
    }
    assert_eq!(r.count(), 4);
    assert_eq!(r.last_instant(), 0);
}

#[test]
fn fifth_iteration_of_five_reports_and_resets() {
    let mut r = recorder(5);
    for _ in 0..4 {
        assert!(r.iteration().is_none());
    }
    let report = r.iteration();
    assert!(report.is_some());
    assert_eq!(report.map(|found| found.calls), Some(5));
    assert_eq!(r.count(), 0);
}

#[test]
fn twelve_iterations_of_five_report_twice() {
    let mut r = recorder(5);
    let mut reports: Vec<Report> = Vec::new();
    for _ in 0..12 {
        if let Some(report) = r.iteration() {
            reports.push(report);
        }
    }
    assert_eq!(reports.len(), 2);
    assert_eq!(r.count(), 2);
    assert!(reports.iter().all(|report| report.calls == 5));
}

#[test]
fn count_is_calls_modulo_batch_and_reports_are_calls_divided_by_batch() {
    for batch_size in 1..=7usize {
        let mut r = recorder(batch_size);
        let mut reports = 0usize;
        for calls in 1..=50usize {
            if r.iteration_at(calls as u128).is_some() {
                reports += 1;
            }
            assert_eq!(r.count(), calls % batch_size);
            assert_eq!(reports, calls / batch_size);
        }
    }
}

#[test]
fn a_batch_of_one_reports_every_iteration() {
    let mut r = recorder(1);
    assert_eq!(r.iteration_at(7), Some(Report { calls: 1, elapsed_nanos: 7 }));
    assert_eq!(r.count(), 0);
    assert_eq!(r.iteration_at(9), Some(Report { calls: 1, elapsed_nanos: 2 }));
    assert_eq!(r.count(), 0);
    assert_eq!(r.last_instant(), 9);
}

#[test]
fn a_full_standard_batch_reports_exactly_once() {
    let mut r = Recorder::default();
    let mut reports = 0usize;
    for _ in 0..(BATCH_SIZE - 1) {
        if r.iteration().is_some() {
            reports += 1;
        }
    }
    assert_eq!(reports, 0);
    assert_eq!(r.count(), BATCH_SIZE - 1);
    assert_eq!(r.last_instant(), 0);
    let last = r.iteration();
    assert_eq!(last.map(|report| report.calls), Some(BATCH_SIZE));
    assert_eq!(r.count(), 0);
    assert_eq!(last.map(|report| report.elapsed_nanos), Some(r.last_instant()));
}

#[test]
fn elapsed_is_measured_from_the_start_of_the_batch() {
    let mut r = recorder(3);
    assert_eq!(r.iteration_at(10), None);
    assert_eq!(r.iteration_at(20), None);
    assert_eq!(r.last_instant(), 0);
    let first = r.iteration_at(3_500_000_123);
    assert_eq!(first, Some(Report { calls: 3, elapsed_nanos: 3_500_000_123 }));
    assert_eq!(r.last_instant(), 3_500_000_123);
    assert_eq!(r.count(), 0);
    assert_eq!(r.iteration_at(4_000_000_000), None);
    assert_eq!(r.iteration_at(4_500_000_000), None);
    assert_eq!(r.last_instant(), 3_500_000_123);
    let second = r.iteration_at(5_000_000_000);
    assert_eq!(second, Some(Report { calls: 3, elapsed_nanos: 1_499_999_877 }));
    assert_eq!(r.last_instant(), 5_000_000_000);
}

#[test]
fn instant_is_ignored_unless_the_batch_completes() {
    let mut a = recorder(4);
    let mut b = recorder(4);
    for n in 0..3u128 {
        assert_eq!(a.iteration_at(n * 1000), None);
        assert_eq!(b.iteration_at(u128::MAX - n), None);
    }
    assert_eq!(a.count(), b.count());
    assert_eq!(a.last_instant(), b.last_instant());
    assert_eq!(a.iteration_at(50), b.iteration_at(50));
}

#[test]
fn a_clock_that_runs_backwards_gives_zero_elapsed() {
    let mut r = recorder(2);
    assert_eq!(r.iteration_at(0), None);
    assert_eq!(r.iteration_at(10), Some(Report { calls: 2, elapsed_nanos: 10 }));
    assert_eq!(r.iteration_at(0), None);
    assert_eq!(r.iteration_at(5), Some(Report { calls: 2, elapsed_nanos: 0 }));
    assert_eq!(r.last_instant(), 5);
}

#[test]
fn last_instant_never_moves_back_under_a_monotonic_clock() {
    let instants: [u128; 11] = [0, 0, 3, 3, 8, 13, 13, 13, 21, 34, 34];
    let mut r = recorder(3);
    let mut previous = r.last_instant();
    let mut boundaries: Vec<u128> = Vec::new();
    for now in instants {
        if r.iteration_at(now).is_some() {
            boundaries.push(r.last_instant());
        }
        assert!(previous <= r.last_instant());
        previous = r.last_instant();
    }
    assert_eq!(boundaries, vec![3, 13, 21]);
}

#[test]
fn batches_lie_end_to_end() {
    let mut r = recorder(4);
    let mut total = 0u128;
    let mut now = 0u128;
    for step in 1..=40u128 {
        now += step * 17;
        if let Some(report) = r.iteration_at(now) {
            total += report.elapsed_nanos;
            assert_eq!(total, r.last_instant());
            assert_eq!(r.last_instant(), now);
        }
    }
    assert_eq!(total, r.last_instant());
}

#[test]
fn the_real_clock_never_moves_last_instant_back() {
    let mut r = recorder(10);
    let mut previous = r.last_instant();
    let mut reports = 0usize;
    for _ in 0..1000 {
        if let Some(report) = r.iteration() {
            reports += 1;
            assert_eq!(report.calls, 10);
            assert_eq!(report.elapsed_nanos, r.last_instant() - previous);
        }
        assert!(previous <= r.last_instant());
        previous = r.last_instant();
    }
    assert_eq!(reports, 100);
    assert_eq!(r.count(), 0);
}

#[test]
fn the_real_clock_measures_time_that_passes() {
    let mut r = recorder(1);
    let started = std::time::Instant::now();
    while started.elapsed() < std::time::Duration::from_millis(20) {
        std::hint::spin_loop();
    }
    let report = r.iteration();
    assert!(report.map(|found| found.millis()) >= Some(20));
    assert!(r.last_instant() >= 20_000_000);
}
