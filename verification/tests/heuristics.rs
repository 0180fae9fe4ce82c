use performance_features::MetricSet;
use performance_features::SystemOptimizer;
use performance_features::calculate_performance_score;
use performance_features::calculate_process_priority;
use performance_features::optimize_system_resources;

#[test]
fn priority_high_cpu_and_memory() {
    // 90% CPU and 90% memory earn 2 + 2 on top of base 0.
    assert_eq!(calculate_process_priority(9000, 9000, 0), 4);
}

#[test]
fn priority_calm_system_unchanged() {
    assert_eq!(calculate_process_priority(5000, 5000, 0), 0);
}

#[test]
fn priority_clamped_at_upper_bound() {
    // 70% CPU earns 1, 90% memory earns 2: 8 + 3 = 11, clamped to 10.
    assert_eq!(calculate_process_priority(7000, 9000, 8), 10);
}

#[test]
fn priority_clamped_at_lower_bound() {
    assert_eq!(calculate_process_priority(0, 0, -25), -10);
}

#[test]
fn priority_extreme_bases_absorbed() {
    assert_eq!(calculate_process_priority(9000, 9000, i32::MAX), 10);
    assert_eq!(calculate_process_priority(0, 0, i32::MIN), -10);
}

#[test]
fn priority_thresholds_are_strict() {
    // Exactly 80% CPU and 85% memory fall on the lower side of each rule.
    assert_eq!(calculate_process_priority(8000, 8500, 0), 2);
    assert_eq!(calculate_process_priority(8001, 8501, 0), 4);
    assert_eq!(calculate_process_priority(6001, 7001, 0), 2);
}

#[test]
fn relabel_idle_and_background_names() {
    let names = vec![
        "idle_task".to_string(),
        "worker1".to_string(),
        "backgroundjob".to_string(),
    ];
    let relabeled = optimize_system_resources(&names, 5000);
    assert_eq!(
        relabeled,
        vec![
            "optimized_idle_task".to_string(),
            "worker1".to_string(),
            "optimized_backgroundjob".to_string(),
        ]
    );
}

#[test]
fn relabel_boosts_long_names_over_threshold() {
    let names = vec!["workerone".to_string()];
    let relabeled = optimize_system_resources(&names, 8000);
    assert_eq!(relabeled, vec!["boosted_workerone".to_string()]);
}

#[test]
fn relabel_short_plain_name_passes_through() {
    let names = vec!["abc".to_string()];
    let relabeled = optimize_system_resources(&names, 9000);
    assert_eq!(relabeled, vec!["abc".to_string()]);
}

#[test]
fn relabel_idle_takes_precedence_over_boost() {
    // Long name over the threshold, but "idle" inside it wins.
    let names = vec!["idleworker".to_string()];
    let relabeled = optimize_system_resources(&names, 9000);
    assert_eq!(relabeled, vec!["optimized_idleworker".to_string()]);
}

#[test]
fn relabel_boost_needs_strict_length_and_threshold() {
    // Exactly five characters, or a threshold of exactly 75%, is not enough.
    let names = vec!["abcde".to_string(), "abcdef".to_string()];
    let at_threshold = optimize_system_resources(&names, 7500);
    assert_eq!(at_threshold, vec!["abcde".to_string(), "abcdef".to_string()]);
    let over_threshold = optimize_system_resources(&names, 7501);
    assert_eq!(
        over_threshold,
        vec!["abcde".to_string(), "boosted_abcdef".to_string()]
    );
}

#[test]
fn relabel_keeps_length_and_order() {
    let names = vec![
        "zeta".to_string(),
        "idle".to_string(),
        "alphabetical".to_string(),
        "a".to_string(),
    ];
    let relabeled = optimize_system_resources(&names, 9000);
    assert_eq!(relabeled.len(), 4);
    assert_eq!(relabeled[0], "zeta");
    assert_eq!(relabeled[1], "optimized_idle");
    assert_eq!(relabeled[2], "boosted_alphabetical");
    assert_eq!(relabeled[3], "a");
}

#[test]
fn relabel_empty_list() {
    let names: Vec<String> = Vec::new();
    assert_eq!(optimize_system_resources(&names, 9000).len(), 0);
}

#[test]
fn score_all_metrics_present() {
    // (80 + 70 + 90 + 80) / 4 == 80.
    let metrics = MetricSet {
        cpu_usage: Some(2000),
        memory_usage: Some(3000),
        disk_usage: Some(1000),
        network_usage: Some(4000),
    };
    assert_eq!(calculate_performance_score(&metrics), 8000);
}

#[test]
fn score_empty_set_is_zero() {
    let metrics = MetricSet::empty();
    assert_eq!(calculate_performance_score(&metrics), 0);
}

#[test]
fn score_divisor_stays_four_for_partial_sets() {
    // A perfectly healthy CPU alone still only reaches 100 / 4 == 25.
    let metrics = MetricSet {
        cpu_usage: Some(0),
        ..MetricSet::empty()
    };
    assert_eq!(calculate_performance_score(&metrics), 2500);
}

#[test]
fn score_network_counts_at_half_weight() {
    // 100 - 40 / 2 == 80, divided by 4.
    let metrics = MetricSet {
        network_usage: Some(4000),
        ..MetricSet::empty()
    };
    assert_eq!(calculate_performance_score(&metrics), 2000);
}

#[test]
fn score_clamped_at_zero_for_overloaded_metrics() {
    // 200% CPU usage drives the sum negative; the clamp absorbs it.
    let metrics = MetricSet {
        cpu_usage: Some(20000),
        ..MetricSet::empty()
    };
    assert_eq!(calculate_performance_score(&metrics), 0);
}

#[test]
fn score_floors_to_the_hundredth() {
    // (100 - 0.01) / 4 == 24.9975, reported as 24.99.
    let metrics = MetricSet {
        cpu_usage: Some(1),
        ..MetricSet::empty()
    };
    assert_eq!(calculate_performance_score(&metrics), 2499);
}

#[test]
fn optimizer_fresh_status() {
    let optimizer = SystemOptimizer::new();
    assert_eq!(optimizer.get_status(), "Efficiency: 0.00%, Optimizations: 0");
}

#[test]
fn optimizer_boosts_cap_at_one_hundred() {
    let mut optimizer = SystemOptimizer::new();
    assert_eq!(optimizer.boost_performance(1000), 1000);
    assert_eq!(optimizer.boost_performance(9500), 10000);
    assert_eq!(optimizer.efficiency_level, 10000);
    assert_eq!(optimizer.optimization_count, 2);
}

#[test]
fn optimizer_reset_restores_initial_status() {
    let mut optimizer = SystemOptimizer::new();
    optimizer.boost_performance(4250);
    optimizer.boost_performance(-100);
    optimizer.boost_performance(9999);
    optimizer.reset_optimizer();
    assert_eq!(optimizer.get_status(), "Efficiency: 0.00%, Optimizations: 0");
}

#[test]
fn optimizer_status_shows_two_decimals_and_count() {
    let mut optimizer = SystemOptimizer::new();
    optimizer.boost_performance(4250);
    assert_eq!(optimizer.get_status(), "Efficiency: 42.50%, Optimizations: 1");
}

#[test]
fn optimizer_negative_boost_goes_below_zero() {
    // There is no lower cap, so a negative factor drives the level negative.
    let mut optimizer = SystemOptimizer::new();
    assert_eq!(optimizer.boost_performance(-525), -525);
    assert_eq!(optimizer.get_status(), "Efficiency: -5.25%, Optimizations: 1");
}

#[test]
fn optimizer_fields_are_plain_data() {
    let mut optimizer = SystemOptimizer::new();
    optimizer.efficiency_level = 123;
    optimizer.optimization_count = 7;
    assert_eq!(optimizer.get_status(), "Efficiency: 1.23%, Optimizations: 7");
}
