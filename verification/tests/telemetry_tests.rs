use tinywindow::telemetry::MetricsRegistry;

#[test]
fn test_emit_metric() {
    let mut m = MetricsRegistry::new();
    m.emit_metric("orders_total", 1);
    let metrics = m.get_metrics();
    assert!(metrics.contains("orders_total"));
}

#[test]
fn test_record_latency() {
    let mut m = MetricsRegistry::new();
    m.record_latency("test_op", 50); // 50μs
    let metrics = m.get_metrics();
    assert!(metrics.contains("latency_seconds"));
    assert!(metrics.contains(r#"operation="test_op""#));
}

#[test]
fn test_per_operation_latency() {
    let mut m = MetricsRegistry::new();
    m.record_latency("order_gen", 50);
    m.record_latency("order_val", 100);
    let metrics = m.get_metrics();

    assert!(metrics.contains(r#"operation="order_gen""#));
    assert!(metrics.contains(r#"operation="order_val""#));
}

#[test]
fn test_invalid_operation_name() {
    let mut m = MetricsRegistry::new();
    m.record_latency("test'; DROP TABLE--", 50);
    let metrics = m.get_metrics();

    assert!(!metrics.contains(r#"operation="test'; DROP TABLE--""#));
}

#[test]
fn test_empty_operation_dropped() {
    let mut m = MetricsRegistry::new();
    m.record_latency("", 50);
    let metrics = m.get_metrics();
    assert!(!metrics.contains(r#"operation="""#));
    assert!(!metrics.contains("latency_seconds_count"));
}

#[test]
fn test_valid_operation_with_dots() {
    let mut m = MetricsRegistry::new();
    m.record_latency("order.generation", 50);
    let metrics = m.get_metrics();

    assert!(metrics.contains(r#"operation="order.generation""#));
}

#[test]
fn test_get_metrics_format() {
    let mut m = MetricsRegistry::new();
    m.emit_metric("orders_total", 1);
    let metrics = m.get_metrics();
    assert!(metrics.contains("# HELP"));
    assert!(metrics.contains("# TYPE"));
}

#[test]
fn test_counter_exact_line() {
    let mut m = MetricsRegistry::new();
    m.emit_metric("orders_total", 1);
    let metrics = m.get_metrics();
    assert!(metrics.contains("# HELP orders_total Total orders sent"));
    assert!(metrics.contains("# TYPE orders_total counter"));
    assert!(metrics.contains("orders_total 1\n"));
}

#[test]
fn test_unknown_metric_leaves_text_unchanged() {
    let mut m = MetricsRegistry::new();
    m.record_latency("op", 7);
    let before = m.get_metrics();
    m.emit_metric("memory_bytes", 123);
    let after = m.get_metrics();
    assert_eq!(before, after);
}

#[test]
fn test_counter_counts_every_emission() {
    let mut m = MetricsRegistry::new();
    m.emit_metric("orders_total", 1);
    m.emit_metric("orders_total", 1);
    m.emit_metric("orders_total", 1);
    let metrics = m.get_metrics();
    assert!(metrics.contains("orders_total 3\n"));
}

#[test]
fn test_zero_latency_in_lowest_bucket() {
    let mut m = MetricsRegistry::new();
    m.record_latency("op", 0);
    let metrics = m.get_metrics();
    assert!(metrics.contains(r#"latency_seconds_bucket{operation="op",le="1e-05"} 1"#));
}

#[test]
fn test_long_latency_in_inf_only() {
    let mut m = MetricsRegistry::new();
    m.record_latency("op", 100_001); // just over 100ms
    let metrics = m.get_metrics();
    assert!(metrics.contains(r#"latency_seconds_bucket{operation="op",le="0.1"} 0"#));
    assert!(metrics.contains(r#"latency_seconds_bucket{operation="op",le="+Inf"} 1"#));
}

#[test]
fn test_latency_count_increments_by_one() {
    let mut m = MetricsRegistry::new();
    m.record_latency("op", 50);
    let metrics = m.get_metrics();
    assert!(metrics.contains(r#"latency_seconds_count{operation="op"} 1"#));
    m.record_latency("op", 60);
    let metrics = m.get_metrics();
    assert!(metrics.contains(r#"latency_seconds_count{operation="op"} 2"#));
}

#[test]
fn test_sum_line_in_seconds() {
    let mut m = MetricsRegistry::new();
    m.record_latency("op", 50);
    let metrics = m.get_metrics();
    assert!(metrics.contains(r#"latency_seconds_sum{operation="op"} 0.000050"#));
    m.record_latency("op", 2_000_000); // two whole seconds more
    let metrics = m.get_metrics();
    assert!(metrics.contains(r#"latency_seconds_sum{operation="op"} 2.000050"#));
}

#[test]
fn test_bucket_lines_are_cumulative() {
    let mut m = MetricsRegistry::new();
    m.record_latency("op", 5); // at or under every bound
    m.record_latency("op", 500); // over 1e-4, at or under 1e-3
    let metrics = m.get_metrics();
    assert!(metrics.contains(r#"latency_seconds_bucket{operation="op",le="1e-05"} 1"#));
    assert!(metrics.contains(r#"latency_seconds_bucket{operation="op",le="0.0001"} 1"#));
    assert!(metrics.contains(r#"latency_seconds_bucket{operation="op",le="0.001"} 2"#));
    assert!(metrics.contains(r#"latency_seconds_bucket{operation="op",le="+Inf"} 2"#));
}

#[test]
fn test_initialization_is_idempotent() {
    let mut once = MetricsRegistry::new();
    once.ensure_initialized();
    let mut many = MetricsRegistry::new();
    many.ensure_initialized();
    many.ensure_initialized();
    many.ensure_initialized();
    assert_eq!(once.get_metrics(), many.get_metrics());
}

#[test]
fn test_snapshot_matches_get_metrics() {
    let mut m = MetricsRegistry::new();
    m.record_latency("op", 50);
    let text = m.get_metrics();
    assert_eq!(m.snapshot(), text);
}
