use owl_meter::aws_cost::AwsRegion;
use owl_meter::aws_cost::CostEstimator;
use owl_meter::metrics::ExecutionMetrics;

fn metrics_with(duration_ms: u64, cpu_avg: u64, memory_bytes: u64) -> ExecutionMetrics {
    ExecutionMetrics {
        duration_ms,
        cpu_avg,
        cpu_peak: cpu_avg,
        memory_bytes,
        network_sent: 0,
        network_received: 0,
    }
}

#[test]
fn lambda_example_us_east_1() {
    // 128 MB (in bytes, at the 1_024_000 bytes-per-MB divisor) for one
    // second: 0.125 GB-seconds of compute plus one request's share.
    let estimator = CostEstimator::new(AwsRegion::UsEast1);
    let metrics = metrics_with(1000, 0, 128 * 1_024_000);
    let cost = estimator.estimate_lambda(&metrics);
    assert_eq!(cost.cost_per_execution, 2_283_337);
    assert_eq!(cost.monthly_cost_1m, 2_283_337 * 1_000_000);
    let dollars = cost.cost_per_execution as f64 / 1_000_000_000_000.0;
    assert!((dollars - 0.0000022833).abs() < 1e-9);
}

#[test]
fn lambda_memory_floor_applies_below_128_mb() {
    let estimator = CostEstimator::new(AwsRegion::UsEast1);
    let tiny = estimator.estimate_lambda(&metrics_with(1000, 0, 1));
    let floor = estimator.estimate_lambda(&metrics_with(1000, 0, 128 * 1_024_000));
    assert_eq!(tiny.cost_per_execution, floor.cost_per_execution);
}

#[test]
fn lambda_zero_duration_is_request_cost_only() {
    let estimator = CostEstimator::new(AwsRegion::UsEast1);
    let cost = estimator.estimate_lambda(&metrics_with(0, 0, 0));
    // 0.20 dollars per million requests = 200_000 picodollars each.
    assert_eq!(cost.cost_per_execution, 200_000);
}

#[test]
fn lambda_sa_east_1_is_pricier() {
    let east = CostEstimator::new(AwsRegion::UsEast1);
    let sao = CostEstimator::new(AwsRegion::SaEast1);
    let metrics = metrics_with(1000, 0, 128 * 1_024_000);
    // 0.125 GB-seconds at 0.0000208334 $/GB-second, plus 0.30 $/million.
    let cost = sao.estimate_lambda(&metrics);
    assert_eq!(cost.cost_per_execution, 2_604_175 + 300_000);
    assert!(cost.cost_per_execution > east.estimate_lambda(&metrics).cost_per_execution);
}

#[test]
fn lambda_monotonic_in_duration_and_memory() {
    let estimator = CostEstimator::new(AwsRegion::EuWest1);
    let base = estimator.estimate_lambda(&metrics_with(1000, 0, 200_000_000));
    let longer = estimator.estimate_lambda(&metrics_with(2000, 0, 200_000_000));
    let fatter = estimator.estimate_lambda(&metrics_with(1000, 0, 400_000_000));
    assert!(base.cost_per_execution <= longer.cost_per_execution);
    assert!(base.cost_per_execution <= fatter.cost_per_execution);
    assert!(base.monthly_cost_1m <= longer.monthly_cost_1m);
}

#[test]
fn vcpu_tier_minimum_for_idle_cpu() {
    // cpu_avg = 0: desired 0.25 vCPU, memory 0: desired 0.5 GB -> 1 GB,
    // within the 2 GB cap of the 0.25 vCPU tier.
    let estimator = CostEstimator::new(AwsRegion::UsEast1);
    let vcpu = estimator.calculate_vcpu(0);
    assert_eq!(vcpu, 25);
    assert_eq!(estimator.calculate_memory_gb(0, vcpu), 1);
}

#[test]
fn vcpu_tier_for_150_percent_cpu() {
    // 150% CPU -> 1.5 vCPU desired -> 2.0 vCPU tier.
    let estimator = CostEstimator::new(AwsRegion::UsEast1);
    assert_eq!(estimator.calculate_vcpu(15000), 200);
}

#[test]
fn vcpu_tiers_are_the_seven_fixed_values_and_monotonic() {
    let estimator = CostEstimator::new(AwsRegion::UsEast1);
    let inputs = [
        0u64, 2500, 2501, 5000, 5001, 10000, 10001, 20000, 20001, 40000, 40001, 80000, 80001,
        1_000_000,
    ];
    let expected = [
        25u64, 25, 50, 50, 100, 100, 200, 200, 400, 400, 800, 800, 1600, 1600,
    ];
    let mut last: u64 = 0;
    for (cpu, want) in inputs.iter().zip(expected.iter()) {
        let tier = estimator.calculate_vcpu(*cpu);
        assert_eq!(tier, *want);
        assert!(tier >= last);
        last = tier;
    }
}

#[test]
fn vcpu_tier_selection_is_idempotent() {
    let estimator = CostEstimator::new(AwsRegion::UsEast1);
    for cpu in [0u64, 30, 2500, 7000, 15000, 35000, 79999, 500_000] {
        let tier = estimator.calculate_vcpu(cpu);
        // a tier of t hundredths of a vCPU equals a load of 100 * t
        // hundredths of a percent
        assert_eq!(estimator.calculate_vcpu(100 * tier), tier);
    }
}

#[test]
fn memory_tier_never_exceeds_cap_of_paired_vcpu_tier() {
    let estimator = CostEstimator::new(AwsRegion::UsEast1);
    let huge: u64 = u64::MAX;
    assert_eq!(estimator.calculate_memory_gb(huge, 25), 2);
    assert_eq!(estimator.calculate_memory_gb(huge, 50), 4);
    assert_eq!(estimator.calculate_memory_gb(huge, 100), 8);
    assert_eq!(estimator.calculate_memory_gb(huge, 200), 16);
    assert_eq!(estimator.calculate_memory_gb(huge, 400), 30);
    assert_eq!(estimator.calculate_memory_gb(huge, 800), 120);
    assert_eq!(estimator.calculate_memory_gb(huge, 1600), 120);
}

#[test]
fn memory_tier_rounds_up_to_whole_gb() {
    let estimator = CostEstimator::new(AwsRegion::UsEast1);
    // one byte over 2 GB rounds up to 3 GB
    assert_eq!(estimator.calculate_memory_gb(2 * 1_048_576_000 + 1, 400), 3);
    assert_eq!(estimator.calculate_memory_gb(3 * 1_048_576_000, 400), 3);
}

#[test]
fn fargate_one_hour_run_exact_cost() {
    // 2.0 vCPU and 3 GB in us-east-1 for exactly one hour:
    // 2 * 0.04048 + 3 * 0.004445 = 0.094295 dollars.
    let estimator = CostEstimator::new(AwsRegion::UsEast1);
    let metrics = metrics_with(3_600_000, 15000, 3 * 1_048_576_000);
    let cost = estimator.estimate_ecs_fargate(&metrics);
    assert_eq!(cost.cost_per_execution, 94_295_000_000);
    assert_eq!(cost.monthly_cost_continuous, 94_295_000_000 * 730);
}

#[test]
fn eks_adds_flat_cluster_surcharge() {
    let estimator = CostEstimator::new(AwsRegion::ApSoutheast1);
    let metrics = metrics_with(3_600_000, 15000, 3 * 1_048_576_000);
    let fargate = estimator.estimate_ecs_fargate(&metrics);
    let eks = estimator.estimate_eks_fargate(&metrics);
    // 0.10 dollars per cluster-hour, over one hour / over 730 hours
    assert_eq!(
        eks.cost_per_execution,
        fargate.cost_per_execution + 100_000_000_000
    );
    assert_eq!(
        eks.monthly_cost_continuous,
        fargate.monthly_cost_continuous + 730 * 100_000_000_000
    );
}

#[test]
fn empty_run_still_prices_cleanly() {
    // a run too short to be sampled even once: zeroed CPU metrics, costs
    // still computable
    let estimator = CostEstimator::new(AwsRegion::UsEast1);
    let metrics = ExecutionMetrics {
        duration_ms: 50,
        cpu_avg: 0,
        cpu_peak: 0,
        memory_bytes: 0,
        network_sent: 0,
        network_received: 0,
    };
    let lambda = estimator.estimate_lambda(&metrics);
    // 128 MB floor for 0.05 s: floor(128 * 50 * 16_666_700 / 1_024_000)
    // + 200_000 request share
    assert_eq!(lambda.cost_per_execution, 104_166 + 200_000);
    let fargate = estimator.estimate_ecs_fargate(&metrics);
    // 0.25 vCPU + 1 GB over 50 ms
    let hourly: u128 = 25 * 404_800_000 + 4_445_000_000;
    assert_eq!(fargate.cost_per_execution, hourly * 50 / 3_600_000);
    let eks = estimator.estimate_eks_fargate(&metrics);
    assert_eq!(
        eks.cost_per_execution,
        fargate.cost_per_execution + 100_000_000_000 * 50 / 3_600_000
    );
}

#[test]
fn region_names() {
    assert_eq!(AwsRegion::UsEast1.name(), "us-east-1 (N. Virginia)");
    assert_eq!(AwsRegion::UsWest2.name(), "us-west-2 (Oregon)");
    assert_eq!(AwsRegion::EuWest1.name(), "eu-west-1 (Ireland)");
    assert_eq!(AwsRegion::ApSoutheast1.name(), "ap-southeast-1 (Singapore)");
    assert_eq!(AwsRegion::SaEast1.name(), "sa-east-1 (São Paulo)");
}

#[test]
fn four_regions_share_lambda_pricing() {
    let metrics = metrics_with(1000, 0, 512 * 1_024_000);
    let east = CostEstimator::new(AwsRegion::UsEast1).estimate_lambda(&metrics);
    for region in [AwsRegion::UsWest2, AwsRegion::EuWest1, AwsRegion::ApSoutheast1] {
        let other = CostEstimator::new(region).estimate_lambda(&metrics);
        assert_eq!(other.cost_per_execution, east.cost_per_execution);
    }
}
