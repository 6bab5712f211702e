use d3os_virtio::perf::{
    report_due, sleep_time, sort, CounterReport, FrameCounter, FrameLog, FrameStats, PerfReport,
    MAX_SAMPLES,
};

#[test]
fn report_tells_sum_extremes_and_percentile() {
    let mut stats = FrameStats::new();
    for time in [5isize, 1, 4, 2, 3] {
        stats.record(time);
    }
    assert_eq!(stats.count(), 5);
    assert_eq!(
        stats.report(),
        PerfReport { count: 5, sum: 15, min_render: 1, max_render: 5, p95_render: 5 }
    );
}

#[test]
fn percentile_of_a_hundred() {
    let mut stats = FrameStats::new();
    for time in (1..=100isize).rev() {
        stats.record(time);
    }
    let report = stats.report();
    assert_eq!(report.p95_render, 96);
    assert_eq!((report.min_render, report.max_render), (1, 100));
}

#[test]
fn one_sample_is_every_statistic() {
    let mut stats = FrameStats::new();
    stats.record(-7);
    assert_eq!(
        stats.report(),
        PerfReport { count: 1, sum: -7, min_render: -7, max_render: -7, p95_render: -7 }
    );
}

#[test]
fn oldest_samples_are_forgotten() {
    let mut stats = FrameStats::new();
    stats.record(1_000_000);
    for _ in 0..MAX_SAMPLES - 1 {
        stats.record(2);
    }
    assert_eq!(stats.report().max_render, 1_000_000);
    stats.record(3);
    assert_eq!(stats.count(), MAX_SAMPLES);
    assert_eq!(
        stats.report(),
        PerfReport { count: 1000, sum: 2001, min_render: 2, max_render: 3, p95_render: 2 }
    );
}

#[test]
fn samples_are_sorted() {
    assert_eq!(sort(&vec![3, -1, 3, 0, 2]), vec![-1, 0, 2, 3, 3]);
    assert_eq!(sort(&vec![]), vec![]);
}

#[test]
fn reports_come_every_thirty_seconds() {
    assert!(!report_due(1000, 30_999));
    assert!(report_due(1000, 31_000));
}

#[test]
fn frames_take_sixteen_milliseconds() {
    assert_eq!(sleep_time(100, 100), Some(16));
    assert_eq!(sleep_time(100, 115), Some(1));
    assert_eq!(sleep_time(100, 116), None);
    assert_eq!(sleep_time(100, 200), None);
}

#[test]
fn counter_reports_and_starts_over() {
    let mut counter = FrameCounter::new(1000);
    assert_eq!(counter.frame(1010, 1015, 1016), None);
    assert_eq!(
        counter.frame(30_990, 31_000, 31_000),
        Some(CounterReport { frame_count: 2, total_render_time_ms: 15, elapsed_ms: 30_000 })
    );
    assert_eq!(counter, FrameCounter::new(31_000));
}

#[test]
fn log_reports_and_remembers() {
    let mut log = FrameLog::new(0);
    assert_eq!(log.frame(100, 104, 110), None);
    assert_eq!(
        log.frame(29_990, 29_992, 30_000),
        Some(PerfReport { count: 2, sum: 6, min_render: 2, max_render: 4, p95_render: 4 })
    );
    assert_eq!(log.frame(30_001, 30_002, 59_999), None);
    assert_eq!(log.frame(59_999, 60_000, 60_000).map(|report| report.count), Some(4));
}
