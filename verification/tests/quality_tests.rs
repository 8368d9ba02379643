use remotelab::quality::adaptive_controller::decide;
use remotelab::quality::adaptive_controller::AdaptiveBitrateController;
use remotelab::quality::adaptive_controller::Adjustment;
use remotelab::quality::adaptive_controller::ControllerState;
use remotelab::quality::adaptive_controller::Thresholds;
use remotelab::quality::bandwidth_estimator::create_bandwidth_estimator;
use remotelab::quality::bandwidth_estimator::rate;
use remotelab::quality::bandwidth_estimator::BandwidthEstimator;
use remotelab::quality::bandwidth_estimator::BandwidthSample;
use remotelab::quality::calculate_quality_score;
use remotelab::quality::create_quality_controller;
use remotelab::quality::monitor::insert_sorted;
use remotelab::quality::monitor::isqrt;
use remotelab::quality::monitor::NetworkMonitor;
use remotelab::quality::percentile;
use remotelab::quality::CodecType;
use remotelab::quality::QualitySettings;
use remotelab::transport::protocol::NetworkStats;

const MS: u32 = 1000;

fn stats(rtt_ms: u64, jitter_ms: u64, loss_ppm: u32, bandwidth_bps: u32) -> NetworkStats {
    NetworkStats {
        rtt_us: rtt_ms * 1000,
        jitter_us: jitter_ms * 1000,
        loss_ppm,
        bandwidth_bps,
        ..NetworkStats::default()
    }
}

fn simulate_network_condition(monitor: &mut NetworkMonitor, rtt_ms: Vec<u32>, loss_count: u32) {
    for rtt in rtt_ms {
        monitor.record_rtt(rtt * MS);
    }
    for _ in 0..loss_count {
        monitor.record_loss();
    }
}

#[test]
fn test_network_monitor_basic() {
    let mut monitor = NetworkMonitor::new();
    for i in 1..=10 {
        monitor.record_rtt(i * 10 * MS);
    }
    let stats = monitor.get_stats();
    assert!(stats.rtt_us > 0);
    assert_eq!(stats.rtt_us, 55_000);
}

#[test]
fn test_network_monitor_rtt_collection() {
    let mut monitor = NetworkMonitor::new();
    monitor.record_rtt(10 * MS);
    monitor.record_rtt(20 * MS);
    monitor.record_rtt(30 * MS);

    let stats = monitor.get_stats();
    assert_eq!(stats.rtt_us, 20_000);
}

#[test]
fn monitor_test_network_monitor_loss_rate() {
    let mut monitor = NetworkMonitor::new();
    for _ in 0..8 {
        monitor.record_success(1000, 10_000);
    }
    for _ in 0..2 {
        monitor.record_loss();
    }
    let stats = monitor.get_stats();
    assert!((stats.loss_ppm as i64 - 200_000).abs() < 10_000);
    assert_eq!(stats.loss_ppm, 200_000);
}

#[test]
fn tests_test_network_monitor_loss_rate() {
    let mut monitor = NetworkMonitor::new();
    simulate_network_condition(&mut monitor, vec![], 0);
    for _ in 0..8 {
        monitor.record_success(1000, 10_000);
    }
    for _ in 0..2 {
        monitor.record_loss();
    }
    let stats = monitor.get_stats();
    assert!((stats.loss_ppm as i64 - 200_000).abs() < 10_000);
    assert_eq!(monitor.loss_count(), 2);
    assert_eq!(monitor.total_packets(), 10);
}

#[test]
fn monitor_test_network_monitor_jitter() {
    let mut monitor = NetworkMonitor::new();
    monitor.record_rtt(10 * MS);
    monitor.record_rtt(50 * MS);
    monitor.record_rtt(10 * MS);
    monitor.record_rtt(50 * MS);
    let stats = monitor.get_stats();
    assert!(stats.jitter_us > 0);
}

#[test]
fn tests_test_network_monitor_jitter() {
    let mut monitor = NetworkMonitor::new();
    monitor.record_rtt(10 * MS);
    monitor.record_rtt(50 * MS);
    monitor.record_rtt(10 * MS);
    monitor.record_rtt(50 * MS);
    let stats = monitor.get_stats();
    assert!(stats.jitter_us > 0);
    assert_eq!(stats.jitter_us, 20_000);
    let mut single = NetworkMonitor::new();
    single.record_rtt(10 * MS);
    assert_eq!(single.get_stats().jitter_us, 0);
}

#[test]
fn monitor_test_packet_record() {
    let mut monitor = NetworkMonitor::new();
    monitor.record_packet(1, 1_000_000, 1_020_000);
    let stats = monitor.get_stats();
    assert!(stats.rtt_us >= 15_000 && stats.rtt_us <= 50_000);
    assert_eq!(stats.rtt_us, 20_000);
}

#[test]
fn tests_test_packet_record() {
    let mut monitor = NetworkMonitor::new();
    monitor.record_packet(1, 1_000_000, 1_020_000);
    monitor.record_packet(2, 1_010_000, 1_050_000);
    monitor.record_packet(3, 1_060_000, 1_060_000);
    monitor.record_packet(4, 1_080_000, 1_070_000);
    let stats = monitor.get_stats();
    assert_eq!(stats.rtt_us, 15_000);
    assert_eq!(monitor.rtt_sample_count(), 4);
    assert_eq!(monitor.total_packets(), 4);
    assert_eq!(stats.jitter_us, 16_583);
}

#[test]
fn test_network_monitor_percentiles() {
    let mut monitor = NetworkMonitor::new();
    for i in 1..=100 {
        monitor.record_rtt(i * MS);
    }
    let p95 = monitor.p95_rtt();
    let p99 = monitor.p99_rtt();
    assert!(p95 >= 90_000 && p95 <= 100_000);
    assert!(p99 >= 95_000 && p99 <= 100_000);
    assert_eq!(p95, 96_000);
    assert_eq!(p99, 100_000);
    assert_eq!(NetworkMonitor::new().p95_rtt(), 0);
}

#[test]
fn test_network_monitor_window_keeps_last_hundred() {
    let mut monitor = NetworkMonitor::new();
    for i in 1..=150u32 {
        monitor.record_rtt(i);
        monitor.record_bandwidth_sample(i);
    }
    assert_eq!(monitor.rtt_sample_count(), 100);
    assert_eq!(monitor.sorted_rtt().first(), Some(&51));
    assert_eq!(monitor.sorted_rtt().last(), Some(&150));
    assert_eq!(monitor.calculate_rtt(), 100);
    assert_eq!(monitor.estimate_bandwidth(), 120);
    assert_eq!(NetworkMonitor::new().estimate_bandwidth(), 10_000_000);
}

#[test]
fn test_percentile_and_sorting() {
    assert_eq!(percentile(&[], 500), 0);
    assert_eq!(percentile(&[7], 990), 7);
    assert_eq!(percentile(&[1, 2, 3, 4], 500), 3);
    assert_eq!(percentile(&[1, 2, 3, 4], 0), 1);
    assert_eq!(percentile(&[1, 2, 3, 4], 1000), 4);
    assert_eq!(percentile(&[1, 2, 3, 4], 5000), 4);
    let mut sorted = vec![];
    for sample in [5u64, 1, 4, 1, 9, 0] {
        insert_sorted(&mut sorted, sample);
    }
    assert_eq!(sorted, vec![0, 1, 1, 4, 5, 9]);
    assert_eq!(isqrt(0), 0);
    assert_eq!(isqrt(15), 3);
    assert_eq!(isqrt(16), 4);
    assert_eq!(isqrt(u128::MAX), u64::MAX);
}

#[test]
fn test_quality_score() {
    assert_eq!(calculate_quality_score(5_000, 0, 1_000), 100);
    assert_eq!(calculate_quality_score(20_000, 1_000, 5_000), 70);
    assert_eq!(calculate_quality_score(50_000, 10_000, 15_000), 40);
    assert_eq!(calculate_quality_score(100_000, 50_000, 30_000), 10);
    assert_eq!(calculate_quality_score(99_999, 49_999, 29_999), 40);
}

#[test]
fn adaptive_controller_test_adaptive_controller_new() {
    let controller = AdaptiveBitrateController::new(20_000_000, 0);
    assert_eq!(controller.current_bitrate(), 20_000_000);
    assert_eq!(controller.current_fps(), 60);
    assert_eq!(controller.state(), ControllerState::Stable);
}

#[test]
fn tests_test_adaptive_controller_new() {
    let controller = AdaptiveBitrateController::new(20_000_000, 0);
    assert_eq!(controller.current_bitrate(), 20_000_000);
    assert_eq!(controller.current_fps(), 60);
    assert_eq!(controller.current_qp(), 25);
    assert_eq!(controller.state(), ControllerState::Stable);
}

#[test]
fn adaptive_controller_test_state_transition_to_degrading() {
    let mut controller = AdaptiveBitrateController::new(50_000_000, 0);
    for _ in 0..5 {
        controller.record_rtt(150 * MS);
        controller.record_loss();
    }
    controller.evaluate_network(1000);
    assert_eq!(controller.state(), ControllerState::Degrading);
    assert!(controller.current_bitrate() < 50_000_000);
    assert_eq!(controller.current_bitrate(), 45_000_000);
}

#[test]
fn tests_test_state_transition_to_degrading() {
    let mut controller = AdaptiveBitrateController::new(50_000_000, 0);
    let initial_bitrate = controller.current_bitrate();
    for _ in 0..5 {
        controller.record_rtt(150 * MS);
        controller.record_loss();
    }
    let stats = stats(150, 10, 50_000, 5_000_000);
    controller.update_stats(stats, 1000);
    assert_eq!(controller.state(), ControllerState::Degrading);
    assert!(controller.current_bitrate() < initial_bitrate);
}

#[test]
fn adaptive_controller_test_emergency_degrade() {
    let mut controller = AdaptiveBitrateController::new(50_000_000, 0);
    for _ in 0..10 {
        controller.record_rtt(300 * MS);
        controller.record_loss();
    }
    controller.evaluate_network(1000);
    controller.evaluate_network(2000);
    assert_eq!(controller.state(), ControllerState::Degrading);
    assert_eq!(controller.current_fps(), 30);
    assert!(controller.current_qp() >= 35);
}

#[test]
fn tests_test_emergency_degrade() {
    let mut controller = AdaptiveBitrateController::new(50_000_000, 0);
    for _ in 0..10 {
        controller.record_rtt(300 * MS);
        controller.record_loss();
    }
    let stats = stats(300, 50, 100_000, 1_000_000);
    controller.update_stats(stats, 1000);
    assert_eq!(controller.state(), ControllerState::Degrading);
    assert_eq!(controller.current_fps(), 60);
    controller.update_stats(stats, 2000);
    assert_eq!(controller.state(), ControllerState::Degrading);
    assert_eq!(controller.current_fps(), 30);
    assert!(controller.current_qp() >= 35);
}

#[test]
fn adaptive_controller_test_quality_improvement() {
    let mut controller = AdaptiveBitrateController::new(10_000_000, 0);
    for _ in 0..5 {
        controller.record_rtt(10 * MS);
    }
    controller.evaluate_network(1000);
    assert!(matches!(controller.state(), ControllerState::Probing | ControllerState::Stable));
    assert_eq!(controller.state(), ControllerState::Probing);
}

#[test]
fn tests_test_quality_improvement() {
    let mut controller = AdaptiveBitrateController::new(10_000_000, 0);
    let initial_bitrate = controller.current_bitrate();
    for _ in 0..5 {
        controller.record_rtt(10 * MS);
    }
    let stats = stats(10, 2, 500, 100_000_000);
    controller.update_stats(stats, 1000);
    assert!(matches!(controller.state(), ControllerState::Probing | ControllerState::Stable));
    assert!(controller.current_bitrate() >= initial_bitrate);
}

#[test]
fn adaptive_controller_test_encoder_callback() {
    let mut controller = AdaptiveBitrateController::new(20_000_000, 0);
    let called = std::sync::Arc::new(std::sync::atomic::AtomicBool::new(false));
    let called_clone = called.clone();
    let callback: Box<dyn Fn(QualitySettings) + Send> = Box::new(move |_settings| {
        called_clone.store(true, std::sync::atomic::Ordering::Relaxed);
    });
    callback(controller.set_bitrate(20_000_000));
    assert!(called.load(std::sync::atomic::Ordering::Relaxed));
}

#[test]
fn tests_test_encoder_callback() {
    let mut controller = AdaptiveBitrateController::new(20_000_000, 0);
    let called = std::sync::Arc::new(std::sync::atomic::AtomicBool::new(false));
    let called_clone = called.clone();
    let callback: Box<dyn Fn(QualitySettings) + Send> = Box::new(move |settings| {
        assert_eq!(settings.bitrate, 20_000_000);
        called_clone.store(true, std::sync::atomic::Ordering::Relaxed);
    });
    let quality = controller.get_quality();
    callback(quality);
    assert!(called.load(std::sync::atomic::Ordering::Relaxed));
    called.store(false, std::sync::atomic::Ordering::Relaxed);
    if let Some(settings) = controller.update_stats(stats(40, 1, 0, 1), 1000) {
        callback(settings);
    }
    assert!(!called.load(std::sync::atomic::Ordering::Relaxed));
}

#[test]
fn adaptive_controller_test_manual_bitrate_setting() {
    let mut controller = AdaptiveBitrateController::new(20_000_000, 0);
    controller.set_bitrate(30_000_000);
    assert_eq!(controller.current_bitrate(), 30_000_000);
    controller.set_bitrate(1_000_000);
    assert_eq!(controller.current_bitrate(), 2_000_000);
}

#[test]
fn tests_test_manual_bitrate_setting() {
    let mut controller = AdaptiveBitrateController::new(20_000_000, 0);
    controller.set_bitrate(30_000_000);
    assert_eq!(controller.current_bitrate(), 30_000_000);
    controller.set_bitrate(100_000);
    assert!(controller.current_bitrate() >= 2_000_000);
    controller.set_bitrate(u32::MAX);
    assert_eq!(controller.current_bitrate(), 100_000_000);
}

#[test]
fn test_quality_controller_trait() {
    let mut controller = create_quality_controller(20_000_000, 0);
    let stats = stats(50, 5, 10_000, 50_000_000);
    controller.update_stats(stats, 1000);
    let quality = controller.get_quality();
    assert!(quality.bitrate > 0);
    assert_eq!(quality.bitrate, 20_000_000);
}

#[test]
fn test_bandwidth_estimator_new() {
    let estimator = BandwidthEstimator::new(0);
    assert_eq!(estimator.get_estimate(), 10_000_000);
    assert_eq!(estimator.sample_count(), 0);
}

#[test]
fn test_record_arrival() {
    let mut estimator = BandwidthEstimator::new(0);
    estimator.record_arrival(100_000, 0);
    estimator.record_arrival(100_000, 10_000);
    estimator.record_arrival(100_000, 20_000);
    assert!(estimator.sample_count() > 0);
    assert_eq!(estimator.sample_count(), 3);
}

#[test]
fn test_bandwidth_record_arrival() {
    let mut estimator = BandwidthEstimator::new(0);
    estimator.record_arrival(100_000, 0);
    assert_eq!(estimator.get_estimate(), 10_000_000);
    estimator.record_arrival(100_000, 5_000);
    assert_eq!(estimator.get_estimate(), 72_000_000);
    estimator.record_arrival(100_000, 10_000);
    assert!(estimator.sample_count() > 0);
    assert_eq!(estimator.get_estimate(), 105_600_000);
    assert_eq!(estimator.last_update(), 10_000);
    estimator.record_arrival(1, 1_010_001);
    assert_eq!(estimator.sample_count(), 1);
}

#[test]
fn test_update_with_duration() {
    let mut estimator = BandwidthEstimator::new(0);
    for _ in 0..10 {
        estimator.update(1_000_000, 100_000, 0);
    }
    let estimate = estimator.get_estimate();
    assert!(estimate > 0);
    assert!(estimate > 50_000_000);
    estimator.update(1_000_000, 0, 5);
    assert_eq!(estimator.get_estimate(), estimate);
    assert_eq!(rate(1_000_000, 100_000), 80_000_000);
    assert_eq!(rate(u64::MAX, 1), u32::MAX);
}

#[test]
fn test_bandwidth_estimator_basic() {
    let mut estimator = create_bandwidth_estimator(0);
    for _ in 0..10 {
        estimator.update(1_000_000, 100_000, 0);
    }
    let estimate = estimator.get_estimate();
    assert!(estimate > 0);
    assert_eq!(estimator.estimate(), estimate);
}

#[test]
fn test_add_sample() {
    let mut estimator = BandwidthEstimator::new(0);
    estimator.add_sample(50_000_000, 1);
    assert_eq!(estimator.get_estimate(), 18_000_000);
    estimator.add_sample(60_000_000, 2);
    assert_eq!(estimator.get_estimate(), 26_400_000);
    estimator.add_sample(70_000_000, 3);
    assert_eq!(estimator.get_estimate(), 35_120_000);
}

#[test]
fn test_conservative_estimate() {
    let mut estimator = BandwidthEstimator::new(0);
    for i in 0..20 {
        let bandwidth = 10_000_000 + i * 1_000_000;
        estimator.add_sample(bandwidth, 0);
    }
    let estimate = estimator.get_estimate();
    let conservative = estimator.conservative_estimate();
    assert!(conservative <= estimate);
    assert_eq!(conservative as u64, estimate as u64 * 7 / 10);
}

#[test]
fn test_bandwidth_conservative_estimate() {
    let mut estimator = BandwidthEstimator::new(0);
    for i in 0..12u64 {
        estimator.record_arrival(1000 * (i + 1), i * 1000);
    }
    assert_eq!(estimator.pair_rates(), vec![8_000_000; 11]);
    assert_eq!(estimator.conservative_estimate(), 8_000_000);
    assert_eq!(estimator.optimistic_estimate(), 8_000_000);
    let estimate = estimator.get_estimate();
    assert!(estimator.conservative_estimate() <= estimate);
}

#[test]
fn test_optimistic_estimate() {
    let mut estimator = BandwidthEstimator::new(0);
    for i in 0..20 {
        let bandwidth = 10_000_000 + i * 1_000_000;
        estimator.add_sample(bandwidth, 0);
    }
    let estimate = estimator.get_estimate();
    let optimistic = estimator.optimistic_estimate();
    assert!(optimistic >= estimate);
}

#[test]
fn test_bandwidth_optimistic_estimate() {
    let mut estimator = BandwidthEstimator::new(0);
    let bytes = [0u64, 100, 300, 600, 1000, 1500, 2100, 2800, 3600, 4500, 5500, 5000];
    for (i, b) in bytes.iter().enumerate() {
        estimator.record_arrival(*b, i as u64 * 1000);
    }
    let rates = estimator.pair_rates();
    assert_eq!(rates.len(), 11);
    assert_eq!(rates[0], 0);
    assert_eq!(rates[1], 800_000);
    assert_eq!(rates[10], 8_000_000);
    assert_eq!(estimator.conservative_estimate(), 800_000);
    assert_eq!(estimator.optimistic_estimate(), 7_200_000);
}

#[test]
fn test_trend() {
    let mut estimator = BandwidthEstimator::new(0);
    for i in 0..20 {
        estimator.add_sample(10_000_000 + i * 5_000_000, 0);
    }
    let trend = estimator.trend();
    assert!(trend >= 0);
    assert_eq!(trend, 0);
}

#[test]
fn test_bounds() {
    let mut estimator = BandwidthEstimator::new(0);
    estimator.set_bounds(1_000_000, 50_000_000);
    estimator.add_sample(u32::MAX, 0);
    assert!(estimator.get_estimate() <= 50_000_000);
    assert_eq!(estimator.get_estimate(), 50_000_000);
    for _ in 0..40 {
        estimator.add_sample(100_000, 0);
    }
    assert!(estimator.get_estimate() >= 1_000_000);
    assert_eq!(estimator.get_estimate(), 1_000_000);
    estimator.set_bounds(5_000_000, 3_000_000);
    assert_eq!(estimator.get_estimate(), 5_000_000);
}

#[test]
fn test_reset() {
    let mut estimator = BandwidthEstimator::new(0);
    estimator.add_sample(50_000_000, 0);
    estimator.reset(9);
    assert_eq!(estimator.get_estimate(), 10_000_000);
    assert_eq!(estimator.sample_count(), 0);
    assert_eq!(estimator.last_update(), 9);
}

#[test]
fn test_alpha_setting() {
    let mut estimator = BandwidthEstimator::new(0);
    estimator.set_alpha(500);
    estimator.add_sample(20_000_000, 0);
    assert_eq!(estimator.get_estimate(), 15_000_000);
    estimator.set_alpha(1500);
    estimator.add_sample(30_000_000, 0);
    assert_eq!(estimator.get_estimate(), 30_000_000);
    estimator.set_alpha(0);
    estimator.add_sample(90_000_000, 0);
    assert_eq!(estimator.get_estimate(), 30_000_000);
}

#[test]
fn test_bandwidth_sample_is_a_plain_record() {
    let sample = BandwidthSample { bandwidth_bps: 1, timestamp: 2, bytes: 3 };
    let copy = sample;
    assert_eq!(sample, copy);
}

#[test]
fn test_full_quality_control_workflow() {
    let mut monitor = NetworkMonitor::new();
    for i in 0..10 {
        monitor.record_rtt((10 + i) * MS);
        monitor.record_success(10000, 10_000);
    }
    let stats1 = monitor.get_stats();
    assert!(stats1.rtt_us < 25_000);

    for _ in 0..10 {
        monitor.record_rtt(200 * MS);
        monitor.record_loss();
    }
    let stats2 = monitor.get_stats();
    assert!(stats2.loss_ppm > 300_000);

    let mut controller = AdaptiveBitrateController::new(20_000_000, 0);
    for tick in 1..=3 {
        let stats = monitor.get_stats();
        controller.update_stats(stats, tick * 1000);
    }
    let final_quality = controller.get_quality();
    assert!(final_quality.bitrate >= 2_000_000);
    assert!(final_quality.fps >= 15 && final_quality.fps <= 144);
    assert!(final_quality.qp >= 10 && final_quality.qp <= 51);
}

#[test]
fn test_stress_many_samples() {
    let mut monitor = NetworkMonitor::new();
    let mut controller = AdaptiveBitrateController::new(20_000_000, 0);
    for i in 0..1000u32 {
        let rtt = 20 + (i % 50);
        monitor.record_rtt(rtt * MS);
        controller.record_rtt(rtt * MS);
        if i % 10 == 0 {
            controller.record_loss();
        }
    }
    let stats = monitor.get_stats();
    assert!(stats.rtt_us > 0);

    let mut estimator = BandwidthEstimator::new(0);
    for i in 0..1000 {
        let bandwidth = 10_000_000 + (i % 50) * 1_000_000;
        estimator.add_sample(bandwidth, 0);
    }
    assert!(estimator.get_estimate() > 0);
}

#[test]
fn test_various_network_scenarios() {
    {
        let mut controller = AdaptiveBitrateController::new(10_000_000, 0);
        controller.update_stats(stats(5, 1, 0, 1_000_000_000), 1000);
        let quality = controller.get_quality();
        assert!(quality.fps >= 60);
    }
    {
        let mut controller = AdaptiveBitrateController::new(10_000_000, 0);
        controller.update_stats(stats(30, 5, 5_000, 100_000_000), 1000);
        let quality = controller.get_quality();
        assert!(quality.bitrate >= 5_000_000);
    }
    {
        let mut controller = AdaptiveBitrateController::new(20_000_000, 0);
        let congested = stats(200, 50, 100_000, 5_000_000);
        controller.update_stats(congested, 1000);
        controller.update_stats(congested, 2000);
        let quality = controller.get_quality();
        assert_eq!(quality.fps, 30);
        assert!(quality.bitrate <= 15_000_000);
    }
}

#[test]
fn test_excellent_network_scenario() {
    let mut controller = AdaptiveBitrateController::new(10_000_000, 0);
    let excellent = stats(5, 1, 0, 1_000_000_000);
    let mut bitrates = vec![];
    for tick in 1..=6u64 {
        controller.update_stats(excellent, tick * 500);
        bitrates.push(controller.current_bitrate());
    }
    assert_eq!(controller.state(), ControllerState::Probing);
    assert!(bitrates[3] >= 10_500_000);
    assert_eq!(bitrates[0], 10_500_000);
    assert_eq!(bitrates[1], 11_025_000);
    assert_eq!(bitrates[2], 11_576_250);
    assert_eq!(controller.get_quality().resolution, (1920, 1080));
    assert_eq!(controller.current_fps(), 60);
    assert_eq!(controller.current_qp(), 23);
}

#[test]
fn test_congested_network_scenario() {
    let mut controller = AdaptiveBitrateController::new(20_000_000, 0);
    let congested = stats(200, 50, 100_000, 5_000_000);
    assert_eq!(controller.update_stats(congested, 500).map(|s| s.bitrate), Some(18_000_000));
    assert_eq!(controller.current_qp(), 27);
    assert_eq!(controller.current_fps(), 60);
    let second = controller.update_stats(congested, 1000).unwrap();
    assert_eq!(second.fps, 30);
    assert!(second.qp >= 35);
    assert!(second.bitrate <= 14_000_000);
    assert_eq!(second.bitrate, 12_600_000);
    assert_eq!(second.resolution, (1920, 1080));
    let third = controller.update_stats(congested, 1500).unwrap();
    assert_eq!(third.bitrate, 8_820_000);
    assert_eq!(third.resolution, (1920, 1080));
    let fourth = controller.update_stats(congested, 2000).unwrap();
    assert_eq!(fourth.bitrate, 6_174_000);
    let fifth = controller.update_stats(congested, 2500).unwrap();
    assert_eq!(fifth.bitrate, 4_321_800);
    assert_eq!(fifth.resolution, (854, 480));
}

#[test]
fn test_gentle_reduction_downshifts_under_ten_megabits() {
    let mut controller = AdaptiveBitrateController::new(11_000_000, 0);
    let applied = controller.reduce_quality();
    assert_eq!(applied.bitrate, 9_900_000);
    assert_eq!(applied.resolution, (1280, 720));
    assert_eq!(applied.qp, 27);
    controller.set_qp(44);
    assert_eq!(controller.reduce_quality().qp, 45);
    assert_eq!(controller.reduce_quality().qp, 45);
    for _ in 0..40 {
        controller.reduce_quality();
    }
    assert_eq!(controller.current_bitrate(), 2_000_000);
    for _ in 0..100 {
        controller.increase_quality();
    }
    assert_eq!(controller.current_bitrate(), 100_000_000);
    assert_eq!(controller.get_quality().resolution, (1920, 1080));
    assert_eq!(controller.current_qp(), 20);
}

#[test]
fn test_a_reduction_ends_a_run_of_increases() {
    let mut controller = AdaptiveBitrateController::new(20_000_000, 0);
    controller.increase_quality();
    controller.increase_quality();
    controller.reduce_quality();
    assert_eq!(controller.current_qp(), 27);
    controller.increase_quality();
    controller.increase_quality();
    assert_eq!(controller.current_qp(), 27);
    controller.increase_quality();
    assert_eq!(controller.current_qp(), 26);
    controller.increase_quality();
    controller.increase_quality();
    controller.reduce_quality_aggressive();
    assert_eq!(controller.current_qp(), 35);
    controller.increase_quality();
    assert_eq!(controller.current_qp(), 35);
}

#[test]
fn test_rate_limiter() {
    let mut controller = AdaptiveBitrateController::new(20_000_000, 1000);
    let congested = stats(200, 50, 100_000, 5_000_000);
    assert_eq!(controller.update_stats(congested, 1499), None);
    assert_eq!(controller.state(), ControllerState::Stable);
    assert_eq!(controller.update_stats(congested, 900), None);
    assert!(controller.update_stats(congested, 1500).is_some());
    assert_eq!(controller.state(), ControllerState::Degrading);
    assert_eq!(controller.update_stats(congested, 1999), None);
    assert_eq!(controller.current_bitrate(), 18_000_000);
    assert!(controller.update_stats(congested, 2000).is_some());
    assert_eq!(controller.current_bitrate(), 12_600_000);
}

#[test]
fn test_state_machine_steps() {
    let calm = stats(40, 1, 5_000, 1);
    assert_eq!(decide(ControllerState::Stable, &calm, &Thresholds::default()), (ControllerState::Stable, Adjustment::Hold));
    assert_eq!(
        decide(ControllerState::Stable, &stats(101, 0, 0, 1), &Thresholds::default()),
        (ControllerState::Degrading, Adjustment::Reduce)
    );
    assert_eq!(
        decide(ControllerState::Stable, &stats(100, 0, 20_000, 1), &Thresholds::default()),
        (ControllerState::Stable, Adjustment::Hold)
    );
    assert_eq!(
        decide(ControllerState::Stable, &stats(0, 0, 20_001, 1), &Thresholds::default()),
        (ControllerState::Degrading, Adjustment::Reduce)
    );
    assert_eq!(
        decide(ControllerState::Stable, &stats(19, 0, 999, 1), &Thresholds::default()),
        (ControllerState::Probing, Adjustment::Increase)
    );
    assert_eq!(
        decide(ControllerState::Degrading, &stats(151, 0, 0, 1), &Thresholds::default()),
        (ControllerState::Degrading, Adjustment::ReduceAggressive)
    );
    assert_eq!(
        decide(ControllerState::Degrading, &stats(79, 0, 9_999, 1), &Thresholds::default()),
        (ControllerState::Stable, Adjustment::Hold)
    );
    assert_eq!(
        decide(ControllerState::Degrading, &stats(100, 0, 0, 1), &Thresholds::default()),
        (ControllerState::Degrading, Adjustment::Hold)
    );
    assert_eq!(
        decide(ControllerState::Probing, &stats(29, 4, 900_000, 1), &Thresholds::default()),
        (ControllerState::Probing, Adjustment::Increase)
    );
    assert_eq!(
        decide(ControllerState::Probing, &stats(29, 5, 0, 1), &Thresholds::default()),
        (ControllerState::Stable, Adjustment::Hold)
    );
    assert_eq!(
        decide(ControllerState::Recovering, &stats(49, 0, 9_999, 1), &Thresholds::default()),
        (ControllerState::Stable, Adjustment::Increase)
    );
    assert_eq!(
        decide(ControllerState::Recovering, &stats(101, 0, 0, 1), &Thresholds::default()),
        (ControllerState::Degrading, Adjustment::Hold)
    );
    assert_eq!(
        decide(ControllerState::Recovering, &stats(60, 0, 0, 1), &Thresholds::default()),
        (ControllerState::Recovering, Adjustment::Hold)
    );
}

#[test]
fn test_thresholds_can_be_set() {
    let mut controller = AdaptiveBitrateController::new(20_000_000, 0);
    assert_eq!(controller.thresholds(), Thresholds::default());
    assert_eq!(controller.thresholds().degrade_rtt_us, 100_000);
    assert_eq!(controller.thresholds().severe_loss_ppm, 50_000);
    let mut limits = Thresholds::default();
    limits.degrade_rtt_us = 30_000;
    controller.set_thresholds(limits);
    assert!(controller.update_stats(stats(40, 0, 0, 1), 500).is_some());
    assert_eq!(controller.state(), ControllerState::Degrading);
    let mut relaxed = AdaptiveBitrateController::new(20_000_000, 0);
    assert!(relaxed.update_stats(stats(40, 0, 0, 1), 500).is_none());
    assert_eq!(relaxed.state(), ControllerState::Stable);
}

#[test]
fn test_controller_state_description() {
    assert_eq!(ControllerState::Stable.description(), "网络稳定");
    assert_eq!(ControllerState::Degrading.description(), "网络恶化");
    assert_eq!(ControllerState::Recovering.description(), "网络恢复");
    assert_eq!(ControllerState::Probing.description(), "探测带宽");
}

#[test]
fn test_quality_settings_default() {
    let settings = QualitySettings::default();
    assert_eq!(settings.bitrate, 20_000_000);
    assert_eq!(settings.fps, 60);
    assert_eq!(settings.qp, 28);
    assert_eq!(settings.resolution, (1920, 1080));
    assert_eq!(settings.codec, CodecType::H264);
}

#[test]
fn test_codec_type() {
    assert_eq!(CodecType::H264.as_str(), "H264");
    assert_eq!(CodecType::HEVC.as_str(), "HEVC");
    assert_eq!(CodecType::AV1.as_str(), "AV1");
}

#[test]
fn test_controller_reset() {
    let mut controller = AdaptiveBitrateController::new(50_000_000, 0);
    controller.set_bitrate(10_000_000);
    controller.set_fps(30);
    controller.set_qp(40);
    controller.reset(5);
    assert_eq!(controller.current_bitrate(), 20_000_000);
    assert_eq!(controller.current_fps(), 60);
    assert_eq!(controller.state(), ControllerState::Stable);
}

#[test]
fn test_controller_setters_clamp() {
    let mut controller = AdaptiveBitrateController::new(50_000_000, 0);
    controller.set_fps(1);
    assert_eq!(controller.current_fps(), 15);
    controller.set_fps(1000);
    assert_eq!(controller.current_fps(), 144);
    controller.set_qp(0);
    assert_eq!(controller.current_qp(), 10);
    controller.set_qp(99);
    assert_eq!(controller.current_qp(), 51);
    controller.set_max_bitrate(1_000_000);
    assert_eq!(controller.set_bitrate(50_000_000).bitrate, 1_000_000);
    controller.set_min_bitrate(3_000_000);
    assert_eq!(controller.set_bitrate(0).bitrate, 3_000_000);
    assert_eq!(controller.set_bitrate(u32::MAX).bitrate, 3_000_000);
}

#[test]
fn test_network_stats_update() {
    let mut controller = AdaptiveBitrateController::new(20_000_000, 0);
    for i in 0..10u64 {
        let stats = NetworkStats {
            rtt_us: 20_000 + i * 5_000,
            jitter_us: i * 1000,
            loss_ppm: i as u32 * 1000,
            bandwidth_bps: 50_000_000,
            ..NetworkStats::default()
        };
        controller.update_stats(stats, i);
    }
    let final_stats = controller.network_stats();
    assert!(final_stats.rtt_us > 0);
    assert_eq!(final_stats.rtt_us, 42_500);
    assert_eq!(final_stats.bandwidth_bps, 50_000_000);
    assert_eq!(controller.monitor().rtt_sample_count(), 10);
}

#[test]
fn test_bandwidth_estimator_reset() {
    let mut estimator = BandwidthEstimator::new(0);
    estimator.add_sample(50_000_000, 0);
    assert!(estimator.get_estimate() != 10_000_000);
    estimator.reset(0);
    assert_eq!(estimator.get_estimate(), 10_000_000);
    assert_eq!(estimator.sample_count(), 0);
}

#[test]
fn test_network_monitor_reset() {
    let mut monitor = NetworkMonitor::new();
    monitor.record_rtt(50 * MS);
    monitor.record_loss();
    monitor.record_bandwidth_sample(50_000_000);
    assert!(monitor.rtt_sample_count() > 0);
    assert!(monitor.loss_count() > 0);
    monitor.reset();
    assert_eq!(monitor.rtt_sample_count(), 0);
    assert_eq!(monitor.loss_count(), 0);
    assert_eq!(monitor.total_packets(), 0);
}
