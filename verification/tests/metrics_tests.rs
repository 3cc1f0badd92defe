//! Tests of the metrics store: counters, gauges, the registry, event
//! recording, history eviction, range queries and the event rate.

use camaleon::events::{Event, EventType};
use camaleon::metrics::{MetricsCollector, MetricsCounter, MetricsGauge, MetricsRegistry};

#[test]
fn test_metrics_counter_creation() {
    let counter = MetricsCounter::new("test_counter");
    assert_eq!(counter.name, "test_counter");
    assert_eq!(counter.value(), 0);
}

#[test]
fn test_metrics_counter_increment() {
    let mut counter = MetricsCounter::new("test_counter");
    counter.increment();
    assert_eq!(counter.value(), 1);

    counter.increment_by(5);
    assert_eq!(counter.value(), 6);
}

#[test]
fn test_metrics_gauge_creation() {
    let gauge = MetricsGauge::new("test_gauge");
    assert_eq!(gauge.name, "test_gauge");
    assert_eq!(gauge.value_milli(), 0);
}

#[test]
fn test_metrics_gauge_set() {
    // 42.5 on the unit scale is 42500 thousandths.
    let mut gauge = MetricsGauge::new("test_gauge");
    gauge.set_milli(42500);
    assert_eq!(gauge.value_milli(), 42500);
}

#[test]
fn test_metrics_registry_creation() {
    let registry = MetricsRegistry::new();
    assert!(registry.counters_is_empty());
    assert!(registry.gauges_is_empty());
}

#[test]
fn test_metrics_registry_register_counter() {
    let mut registry = MetricsRegistry::new();
    registry.register_counter("test_counter");
    assert!(registry.has_counter("test_counter"));
}

#[test]
fn test_metrics_registry_register_gauge() {
    let mut registry = MetricsRegistry::new();
    registry.register_gauge("test_gauge");
    assert!(registry.has_gauge("test_gauge"));
}

#[test]
fn test_metrics_registry_increment_counter() {
    let mut registry = MetricsRegistry::new();
    registry.register_counter("test_counter");
    registry.increment_counter("test_counter");
    assert_eq!(registry.counter_value("test_counter"), Some(1));
}

#[test]
fn test_metrics_registry_set_gauge() {
    // 42.5 on the unit scale is 42500 thousandths.
    let mut registry = MetricsRegistry::new();
    registry.register_gauge("test_gauge");
    registry.set_gauge("test_gauge", 42500);
    assert_eq!(registry.gauge_value("test_gauge"), Some(42500));
}

#[test]
fn test_record_event() {
    let mut collector = MetricsCollector::new();

    let alert = serde_json::Value::String("Test alert".to_string());
    let mut payload = serde_json::Map::new();
    payload.insert("alert".to_string(), alert);
    let event = Event::new(
        EventType::SecurityAlert,
        "test",
        Some(serde_json::Value::Object(payload)),
    );

    collector.record_event(&event).unwrap();

    assert_eq!(collector.get_counter("event_count_SecurityAlert"), 1);
    assert_eq!(collector.get_counter("event_source_test"), 1);
}

#[test]
fn test_counters() {
    let mut collector = MetricsCollector::new();

    collector.set_counter("test_counter", 42);
    assert_eq!(collector.get_counter("test_counter"), 42);

    collector.increment_counter("test_counter");
    assert_eq!(collector.get_counter("test_counter"), 43);
}

#[test]
fn test_gauges() {
    let mut collector = MetricsCollector::new();
    assert_eq!(collector.get_gauge("missing"), None);
    collector.set_gauge("load", 1500);
    assert_eq!(collector.get_gauge("load"), Some(1500));
}

#[test]
fn test_severity_counter_key() {
    let mut collector = MetricsCollector::new();
    let event = Event::new(EventType::SecurityAlert, "probe", None);
    collector.record_event(&event).unwrap();
    assert_eq!(collector.get_counter("severity_High"), 1);
}

#[test]
fn test_history_eviction() {
    // Recording one event past the cap keeps exactly the cap, oldest first
    // out.
    let mut collector = MetricsCollector::new();
    for i in 0..10001u32 {
        let source = if i == 0 { "first" } else { "later" };
        let event = Event::new(EventType::NetworkActivity, source, None);
        collector.record_event(&event).unwrap();
    }
    assert_eq!(collector.history().len(), 10000);
    assert_eq!(collector.history()[0].source, "later");
    assert_eq!(collector.get_counter("event_source_first"), 1);
    assert_eq!(collector.get_counter("event_source_later"), 10000);
}

#[test]
fn test_get_metrics_counts() {
    let mut collector = MetricsCollector::new();
    collector
        .record_event(&Event::new(EventType::SecurityAlert, "alpha", None))
        .unwrap();
    collector
        .record_event(&Event::new(EventType::SecurityAlert, "beta", None))
        .unwrap();
    collector
        .record_event(&Event::new(EventType::NetworkActivity, "alpha", None))
        .unwrap();
    collector.set_gauge("load", 250);

    let report = collector.get_metrics(i64::MIN, i64::MAX).unwrap();
    assert_eq!(report.total_events, 3);
    assert_eq!(report.by_type.get("SecurityAlert"), Some(&2));
    assert_eq!(report.by_type.get("NetworkActivity"), Some(&1));
    assert_eq!(report.by_type.get("PostureChange"), None);
    assert_eq!(report.by_source.get("alpha"), Some(&2));
    assert_eq!(report.by_source.get("beta"), Some(&1));
    assert_eq!(report.by_severity.get("High"), Some(&2));
    assert_eq!(report.by_severity.get("Info"), Some(&1));
    assert_eq!(report.gauges.get("load"), Some(&250));
}

#[test]
fn test_get_metrics_empty_range() {
    let mut collector = MetricsCollector::new();
    collector
        .record_event(&Event::new(EventType::SecurityAlert, "alpha", None))
        .unwrap();
    // A range that ends before it starts holds nothing.
    let report = collector.get_metrics(10, 5).unwrap();
    assert_eq!(report.total_events, 0);
    assert_eq!(report.by_type.get("SecurityAlert"), None);
}

#[test]
fn test_event_rate() {
    let mut collector = MetricsCollector::new();
    for _ in 0..10 {
        collector
            .record_event(&Event::new(EventType::NetworkActivity, "probe", None))
            .unwrap();
    }
    // Ten events within a ten-second window: one event per second, reported
    // in thousandths.
    let now = collector.history()[9].timestamp;
    assert_eq!(collector.event_rate_at(now, 10), 1000);
    // A sixty-second window dilutes the same ten events.
    assert_eq!(collector.event_rate_at(now, 60), 166);
}

#[test]
fn test_time_series() {
    let mut collector = MetricsCollector::new();
    collector.add_time_series_point("latency", 120_000);
    collector.add_time_series_point("latency", 80_000);
    let report = collector.get_metrics(i64::MIN, i64::MAX).unwrap();
    let series = report.time_series.get("latency").unwrap();
    assert_eq!(series.len(), 2);
    assert_eq!(series[0].value, 120_000);
    assert_eq!(series[1].value, 80_000);
    assert_eq!(report.time_series.get("missing"), None);
}
