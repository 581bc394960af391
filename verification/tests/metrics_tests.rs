use owl_meter::metrics::MetricsCollector;

#[test]
fn average_and_peak_of_samples() {
    let mut collector = MetricsCollector::new(42, 0, 0);
    collector.start_monitoring();
    collector.record_sample(1000, 500);
    collector.record_sample(3000, 400);
    collector.stop_monitoring();
    let metrics = collector.get_metrics(500, 0, 0);
    assert_eq!(metrics.duration_ms, 500);
    assert_eq!(metrics.cpu_avg, 2000);
    assert_eq!(metrics.cpu_peak, 3000);
    assert_eq!(metrics.memory_bytes, 500);
    assert!(metrics.cpu_peak >= metrics.cpu_avg);
}

#[test]
fn average_rounds_down() {
    let mut collector = MetricsCollector::new(1, 0, 0);
    collector.start_monitoring();
    collector.record_sample(1, 0);
    collector.record_sample(2, 0);
    collector.stop_monitoring();
    let metrics = collector.get_metrics(10, 0, 0);
    assert_eq!(metrics.cpu_avg, 1);
    assert_eq!(metrics.cpu_peak, 2);
}

#[test]
fn empty_sample_sequence_yields_zeroed_cpu_metrics() {
    let collector = MetricsCollector::new(7, 0, 0);
    let metrics = collector.get_metrics(50, 0, 0);
    assert_eq!(metrics.duration_ms, 50);
    assert_eq!(metrics.cpu_avg, 0);
    assert_eq!(metrics.cpu_peak, 0);
    assert_eq!(metrics.memory_bytes, 0);
}

#[test]
fn network_delta_saturates_at_zero() {
    // counter reset between start and end: delta is 0, never an underflow
    let collector = MetricsCollector::new(7, 1000, 200);
    let metrics = collector.get_metrics(10, 50, 500);
    assert_eq!(metrics.network_sent, 0);
    assert_eq!(metrics.network_received, 300);
}

#[test]
fn memory_peak_never_decreases() {
    let mut collector = MetricsCollector::new(9, 0, 0);
    collector.start_monitoring();
    collector.record_sample(100, 900);
    collector.record_sample(100, 300);
    collector.stop_monitoring();
    let metrics = collector.get_metrics(10, 0, 0);
    assert_eq!(metrics.memory_bytes, 900);
}

#[test]
fn samples_before_start_are_ignored() {
    let mut collector = MetricsCollector::new(9, 0, 0);
    collector.record_sample(5000, 5000);
    collector.start_monitoring();
    collector.record_sample(100, 10);
    collector.stop_monitoring();
    let metrics = collector.get_metrics(10, 0, 0);
    assert_eq!(metrics.cpu_avg, 100);
    assert_eq!(metrics.cpu_peak, 100);
    assert_eq!(metrics.memory_bytes, 10);
}

#[test]
fn no_sample_lands_after_stop() {
    // a sampling cycle still in flight when stop returns: its write-back
    // must not reach the finalized metrics
    let mut collector = MetricsCollector::new(9, 0, 0);
    collector.start_monitoring();
    collector.record_sample(1000, 500);
    collector.stop_monitoring();
    let before = collector.get_metrics(100, 0, 0);
    collector.record_sample(99_999, 999_999);
    let after = collector.get_metrics(100, 0, 0);
    assert_eq!(before, after);
    assert_eq!(after.cpu_peak, 1000);
    assert_eq!(after.memory_bytes, 500);
}
