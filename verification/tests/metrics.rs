use amqp_relay::metrics::{
    GaugeVec, Histogram, Metrics, ProcessUsage, ACTIVE_CONSUMERS, AMQP_CONNECTIONS,
    AMQP_RECONNECTIONS, CPU_USAGE, MEMORY_USAGE, MESSAGES_FAILED, MESSAGES_PROCESSED,
    MESSAGES_RECEIVED, PROCESSING_DURATION, QUEUE_DEPTH, QUEUE_DEPTH_LABEL,
};

fn cumulative(histogram: &Histogram) -> Vec<u64> {
    (0..histogram.buckets()).map(|i| histogram.cumulative_count(i).unwrap()).collect()
}

#[test]
fn series_names() {
    assert_eq!(MESSAGES_RECEIVED, "rabbitmq_messages_received_total");
    assert_eq!(MESSAGES_PROCESSED, "rabbitmq_messages_processed_total");
    assert_eq!(MESSAGES_FAILED, "rabbitmq_messages_failed_total");
    assert_eq!(PROCESSING_DURATION, "rabbitmq_message_processing_seconds");
    assert_eq!(QUEUE_DEPTH, "rabbitmq_queue_depth");
    assert_eq!(QUEUE_DEPTH_LABEL, "queue_name");
    assert_eq!(ACTIVE_CONSUMERS, "rabbitmq_active_consumers");
    assert_eq!(CPU_USAGE, "process_cpu_usage_percent");
    assert_eq!(MEMORY_USAGE, "process_memory_usage_mb");
    assert_eq!(AMQP_CONNECTIONS, "amqp_connections_active");
    assert_eq!(AMQP_RECONNECTIONS, "amqp_reconnections_total");
}

#[test]
fn fresh_metrics_are_zero() {
    let metrics = Metrics::new();
    assert_eq!(metrics.messages_received(), 0);
    assert_eq!(metrics.messages_processed(), 0);
    assert_eq!(metrics.messages_failed(), 0);
    assert_eq!(metrics.active_consumers(), 0);
    assert_eq!(metrics.amqp_connections(), 0);
    assert_eq!(metrics.amqp_reconnections(), 0);
    assert_eq!(metrics.processing_duration().count(), 0);
    assert_eq!(metrics.processing_duration().sum(), 0);
    assert_eq!(metrics.queue_depth().len(), 0);
    assert_eq!(metrics.process(), ProcessUsage { cpu_usage_bits: 0, memory_bytes: 0 });
}

#[test]
fn latency_buckets_run_from_one_millisecond_to_two_and_a_half_seconds() {
    let histogram = Histogram::latency();
    let bounds: Vec<u64> =
        (0..histogram.buckets()).map(|i| histogram.upper_bound(i).unwrap()).collect();
    assert_eq!(
        bounds,
        vec![
            1_000_000,
            2_000_000,
            5_000_000,
            10_000_000,
            25_000_000,
            50_000_000,
            100_000_000,
            250_000_000,
            500_000_000,
            1_000_000_000,
            2_500_000_000
        ]
    );
    assert_eq!(histogram.upper_bound(11), None);
    assert_eq!(histogram.cumulative_count(11), None);
    assert_eq!(cumulative(&histogram), vec![0; 11]);
}

#[test]
fn counters_count_by_one() {
    let mut metrics = Metrics::new();
    metrics.inc_messages_received();
    metrics.inc_messages_received();
    metrics.inc_messages_received();
    metrics.inc_messages_processed();
    metrics.inc_messages_processed();
    metrics.inc_messages_failed();
    metrics.inc_amqp_reconnections();
    assert_eq!(metrics.messages_received(), 3);
    assert_eq!(metrics.messages_processed(), 2);
    assert_eq!(metrics.messages_failed(), 1);
    assert_eq!(metrics.amqp_reconnections(), 1);
    assert_eq!(metrics.processing_duration().count(), 0);
}

#[test]
fn observation_counts_in_every_bucket_from_its_own_up() {
    let mut histogram = Histogram::latency();
    histogram.observe(3_000_000);
    assert_eq!(cumulative(&histogram), vec![0, 0, 1, 1, 1, 1, 1, 1, 1, 1, 1]);
    assert_eq!(histogram.count(), 1);
    assert_eq!(histogram.sum(), 3_000_000);
}

#[test]
fn observation_on_a_bound_belongs_to_its_bucket() {
    let mut histogram = Histogram::latency();
    histogram.observe(1_000_000);
    histogram.observe(1_000_001);
    assert_eq!(cumulative(&histogram), vec![1, 2, 2, 2, 2, 2, 2, 2, 2, 2, 2]);
}

#[test]
fn observation_above_all_bounds_counts_in_the_total_only() {
    let mut histogram = Histogram::latency();
    histogram.observe(2_500_000_001);
    histogram.observe(u64::MAX);
    assert_eq!(cumulative(&histogram), vec![0; 11]);
    assert_eq!(histogram.count(), 2);
    assert_eq!(histogram.sum(), 2_500_000_001u128 + u64::MAX as u128);
}

#[test]
fn observations_accumulate() {
    let mut metrics = Metrics::new();
    for nanos in [0u64, 500_000, 1_500_000, 20_000_000, 700_000_000, 3_000_000_000] {
        metrics.observe_processing_duration(nanos);
    }
    let histogram = metrics.processing_duration();
    assert_eq!(cumulative(histogram), vec![2, 3, 3, 3, 4, 4, 4, 4, 4, 5, 5]);
    assert_eq!(histogram.count(), 6);
    assert_eq!(histogram.sum(), 3_722_000_000);
}

#[test]
fn gauges_take_the_last_value() {
    let mut metrics = Metrics::new();
    metrics.set_active_consumers(4);
    metrics.set_amqp_connections(1);
    assert_eq!(metrics.active_consumers(), 4);
    assert_eq!(metrics.amqp_connections(), 1);
    metrics.set_active_consumers(2);
    metrics.set_amqp_connections(0);
    assert_eq!(metrics.active_consumers(), 2);
    assert_eq!(metrics.amqp_connections(), 0);
    assert_eq!(metrics.messages_received(), 0);
}

#[test]
fn queue_depth_is_kept_per_queue() {
    let mut metrics = Metrics::new();
    metrics.set_queue_depth("in", 5);
    metrics.set_queue_depth("out", 7);
    metrics.set_queue_depth("in", 6);
    let gauge = metrics.queue_depth();
    assert_eq!(gauge.len(), 2);
    assert_eq!(gauge.get("in"), Some(6));
    assert_eq!(gauge.get("out"), Some(7));
    assert_eq!(gauge.get("other"), None);
    let first = gauge.entry(0).unwrap();
    assert_eq!((first.label.as_str(), first.value), ("in", 6));
    let second = gauge.entry(1).unwrap();
    assert_eq!((second.label.as_str(), second.value), ("out", 7));
    assert!(gauge.entry(2).is_none());
}

#[test]
fn labelled_gauge_alone() {
    let mut gauge = GaugeVec::new();
    assert_eq!(gauge.get(""), None);
    gauge.set("", 1);
    gauge.set("a", 2);
    gauge.set("", 3);
    assert_eq!(gauge.len(), 2);
    assert_eq!(gauge.get(""), Some(3));
    assert_eq!(gauge.get("a"), Some(2));
    let copy = gauge.clone();
    gauge.set("a", 9);
    assert_eq!(copy.get("a"), Some(2));
    assert_eq!(gauge.get("a"), Some(9));
}

#[test]
fn process_reading_is_kept_until_the_next_one() {
    let mut metrics = Metrics::new();
    let reading = ProcessUsage { cpu_usage_bits: 12.5f32.to_bits(), memory_bytes: 64 * 1024 * 1024 };
    metrics.update_system_metrics(Some(reading));
    assert_eq!(metrics.process(), reading);
    metrics.update_system_metrics(None);
    assert_eq!(metrics.process(), reading);
    assert_eq!(f32::from_bits(metrics.process().cpu_usage_bits), 12.5);
    assert_eq!(metrics.process().memory_bytes as f64 / 1024.0 / 1024.0, 64.0);
}

#[test]
fn copy_of_metrics_is_a_snapshot() {
    let mut metrics = Metrics::new();
    metrics.inc_messages_received();
    metrics.observe_processing_duration(1);
    let snapshot = metrics.clone();
    metrics.inc_messages_received();
    metrics.observe_processing_duration(1);
    assert_eq!(snapshot.messages_received(), 1);
    assert_eq!(snapshot.processing_duration().count(), 1);
    assert_eq!(metrics.messages_received(), 2);
    assert_eq!(metrics.processing_duration().count(), 2);
}
