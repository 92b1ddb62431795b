use zemon::metrics::{
    counter_delta, percent_bp, rate_kbps_e7, severity_color, total_network_counters,
    DerivedMetrics, MetricSnapshot, Severity,
};

fn snapshot(mem_used: u64, mem_total: u64, rx: u64) -> MetricSnapshot {
    MetricSnapshot {
        cpu_centi_percent: 0,
        memory_used_bytes: mem_used,
        memory_total_bytes: mem_total,
        swap_used_bytes: 0,
        swap_total_bytes: 0,
        network_rx_total_bytes: rx,
        network_tx_total_bytes: 0,
    }
}

#[test]
fn zero_total_memory_percent_is_zero() {
    assert_eq!(percent_bp(0, 0), 0);
    assert_eq!(percent_bp(1, 0), 0);
    assert_eq!(percent_bp(u64::MAX, 0), 0);
}

#[test]
fn zero_totals_derive_to_zero_percent() {
    let cur = snapshot(12345, 0, 0);
    let d = DerivedMetrics::derive(0, 0, &cur, 1000);
    assert_eq!(d.memory_percent_bp, 0);
    assert_eq!(d.swap_percent_bp, 0);
}

#[test]
fn percent_is_exact_integer_ratio() {
    assert_eq!(percent_bp(50, 200), 2500);
    assert_eq!(percent_bp(1, 3), 3333);
    assert_eq!(percent_bp(200, 200), 10000);
}

#[test]
fn counter_reset_derives_zero_rate() {
    assert_eq!(counter_delta(500, 1000), 0);
    assert_eq!(rate_kbps_e7(counter_delta(500, 1000), 1000), 0);
    let cur = snapshot(0, 0, 500);
    let d = DerivedMetrics::derive(1000, 0, &cur, 1000);
    assert_eq!(d.download_kbps_e7, 0);
}

#[test]
fn zero_elapsed_derives_zero_rate() {
    assert_eq!(rate_kbps_e7(4096, 0), 0);
}

#[test]
fn download_rate_scenario_is_exact() {
    let prev_rx: u64 = 1000;
    let cur = snapshot(0, 0, 2000);
    let d = DerivedMetrics::derive(prev_rx, 0, &cur, 1000);
    assert_eq!(d.download_kbps_e7, 9765625);
    assert_eq!(d.download_kbps_e7 as f64 / 1e7, 0.9765625);
}

#[test]
fn memory_percent_scenario_hits_medium_low_boundary() {
    let bp = percent_bp(50, 200);
    assert_eq!(bp, 2500);
    assert_eq!(severity_color(bp), Severity::MediumLow);
    assert_eq!(severity_color(2499), Severity::Low);
}

#[test]
fn severity_buckets_are_half_open() {
    assert_eq!(severity_color(0), Severity::Low);
    assert_eq!(severity_color(2499), Severity::Low);
    assert_eq!(severity_color(2500), Severity::MediumLow);
    assert_eq!(severity_color(4999), Severity::MediumLow);
    assert_eq!(severity_color(5000), Severity::MediumHigh);
    assert_eq!(severity_color(7499), Severity::MediumHigh);
    assert_eq!(severity_color(7500), Severity::High);
    assert_eq!(severity_color(10000), Severity::High);
    assert_eq!(severity_color(u64::MAX), Severity::High);
}

#[test]
fn network_counters_sum_over_interfaces() {
    let ifaces: Vec<(u64, u64)> = vec![(1, 2), (3, 4), (10, 20)];
    assert_eq!(total_network_counters(&ifaces), (14, 26));
    let empty: Vec<(u64, u64)> = Vec::new();
    assert_eq!(total_network_counters(&empty), (0, 0));
}

#[test]
fn network_counter_sum_saturates() {
    let ifaces: Vec<(u64, u64)> = vec![(u64::MAX, 1), (5, 2)];
    assert_eq!(total_network_counters(&ifaces), (u64::MAX, 3));
}

#[test]
fn seed_starts_rates_at_zero() {
    let initial = snapshot(50, 200, 777);
    let d = DerivedMetrics::seed(&initial);
    assert_eq!(d.memory_percent_bp, 2500);
    assert_eq!(d.download_kbps_e7, 0);
    assert_eq!(d.upload_kbps_e7, 0);
}
