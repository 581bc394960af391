//! Per-region price tables and tiered cost estimation.
//!
//! Money is held in picodollars (10^-12 USD) so that list prices with up to
//! ten decimal places of a dollar are exact integers. Divisions round down.

use vstd::prelude::*;
use crate::metrics::ExecutionMetrics;

verus! {

use vstd::arithmetic::div_mod::lemma_div_is_ordered;
use vstd::arithmetic::mul::lemma_mul_inequality;
use vstd::arithmetic::mul::lemma_mul_left_inequality;
use vstd::arithmetic::mul::lemma_mul_upper_bound;

/// The five regions the price table covers.
#[derive(Clone, Copy, Debug, PartialEq, Eq, Structural)]
pub enum AwsRegion {
    UsEast1,
    UsWest2,
    EuWest1,
    ApSoutheast1,
    SaEast1,
}

/// The display name of a region, as a sequence of characters.
pub open spec fn spec_region_name(r: AwsRegion) -> Seq<char> {
    match r {
        AwsRegion::UsEast1 => "us-east-1 (N. Virginia)"@,
        AwsRegion::UsWest2 => "us-west-2 (Oregon)"@,
        AwsRegion::EuWest1 => "eu-west-1 (Ireland)"@,
        AwsRegion::ApSoutheast1 => "ap-southeast-1 (Singapore)"@,
        AwsRegion::SaEast1 => "sa-east-1 (São Paulo)"@,
    }
}

impl AwsRegion {
    /// Human-readable name of the region.
    pub fn name(&self) -> (r: &'static str)
        ensures
            r@ == spec_region_name(*self),
    {
        match self {
            Self::UsEast1 => "us-east-1 (N. Virginia)",
            Self::UsWest2 => "us-west-2 (Oregon)",
            Self::EuWest1 => "eu-west-1 (Ireland)",
            Self::ApSoutheast1 => "ap-southeast-1 (Singapore)",
            Self::SaEast1 => "sa-east-1 (São Paulo)",
        }
    }
}

/// Unit prices for one region, in picodollars (10^-12 USD):
/// per GB-second of serverless compute, per million serverless invocations,
/// per vCPU-hour and per GB-memory-hour of container compute, and per hour
/// of a managed cluster's control plane.
#[derive(Clone, Copy, Debug, PartialEq, Eq, Structural)]
pub struct RegionPricing {
    pub lambda_gb_second: u64,
    pub lambda_per_million_requests: u64,
    pub fargate_vcpu_hour: u64,
    pub fargate_gb_hour: u64,
    pub eks_cluster_hour: u64,
}

impl RegionPricing {
    /// Every unit price stays within one dollar (10^12 picodollars), so the
    /// fixed-point cost formulas below fit comfortably in 128-bit integers.
    pub open spec fn wf(self) -> bool {
        &&& self.lambda_gb_second <= 1_000_000_000_000
        &&& self.lambda_per_million_requests <= 1_000_000_000_000
        &&& self.fargate_vcpu_hour <= 1_000_000_000_000
        &&& self.fargate_gb_hour <= 1_000_000_000_000
        &&& self.eks_cluster_hour <= 1_000_000_000_000
    }
}

/// The price table of each region: a versioned snapshot of list pricing.
pub open spec fn spec_pricing(region: AwsRegion) -> RegionPricing {
    match region {
        AwsRegion::UsEast1 => RegionPricing {
            lambda_gb_second: 16_666_700,
            lambda_per_million_requests: 200_000_000_000,
            fargate_vcpu_hour: 40_480_000_000,
            fargate_gb_hour: 4_445_000_000,
            eks_cluster_hour: 100_000_000_000,
        },
        AwsRegion::UsWest2 => RegionPricing {
            lambda_gb_second: 16_666_700,
            lambda_per_million_requests: 200_000_000_000,
            fargate_vcpu_hour: 40_480_000_000,
            fargate_gb_hour: 4_445_000_000,
            eks_cluster_hour: 100_000_000_000,
        },
        AwsRegion::EuWest1 => RegionPricing {
            lambda_gb_second: 16_666_700,
            lambda_per_million_requests: 200_000_000_000,
            fargate_vcpu_hour: 44_560_000_000,
            fargate_gb_hour: 4_890_000_000,
            eks_cluster_hour: 100_000_000_000,
        },
        AwsRegion::ApSoutheast1 => RegionPricing {
            lambda_gb_second: 16_666_700,
            lambda_per_million_requests: 200_000_000_000,
            fargate_vcpu_hour: 46_560_000_000,
            fargate_gb_hour: 5_107_000_000,
            eks_cluster_hour: 100_000_000_000,
        },
        AwsRegion::SaEast1 => RegionPricing {
            lambda_gb_second: 20_833_400,
            lambda_per_million_requests: 300_000_000_000,
            fargate_vcpu_hour: 56_640_000_000,
            fargate_gb_hour: 6_218_000_000,
            eks_cluster_hour: 100_000_000_000,
        },
    }
}

/// Ceiling of `a / b` for non-negative `a` and positive `b`.
pub open spec fn spec_ceil_div(a: int, b: int) -> int {
    (a + b - 1) / b
}

/// Megabytes billed for one serverless execution: the peak resident size
/// rounded up to whole megabytes, floored at the 128 MB billing minimum.
pub open spec fn spec_billed_mb(memory_bytes: int) -> int {
    let mb = spec_ceil_div(memory_bytes, 1_024_000);
    if mb < 128 {
        128
    } else {
        mb
    }
}

/// Picodollars charged for one serverless execution: GB-seconds
/// (billed MB / 1024 GB times duration_ms / 1000 seconds) times the
/// per-GB-second price, in one floor division to keep full precision,
/// plus the per-request share of the per-million-invocations price.
pub open spec fn spec_lambda_cost(p: RegionPricing, duration_ms: int, memory_bytes: int) -> int {
    spec_billed_mb(memory_bytes) * duration_ms * p.lambda_gb_second / 1_024_000
        + p.lambda_per_million_requests / 1_000_000
}

/// The container vCPU tier, in hundredths of a vCPU, selected for a CPU
/// average given in hundredths of a percent: the smallest of the seven
/// fixed tiers {0.25, 0.5, 1, 2, 4, 8, 16} vCPU that covers the desired
/// load (cpu_avg / 100 vCPU, floored at 0.25); loads above 8 vCPU
/// resolve to the 16 vCPU tier.
pub open spec fn spec_vcpu_tier(cpu_avg: int) -> int {
    if cpu_avg <= 2500 {
        25
    } else if cpu_avg <= 5000 {
        50
    } else if cpu_avg <= 10000 {
        100
    } else if cpu_avg <= 20000 {
        200
    } else if cpu_avg <= 40000 {
        400
    } else if cpu_avg <= 80000 {
        800
    } else {
        1600
    }
}

/// Largest memory tier, in whole GB, that a vCPU tier (in hundredths of a
/// vCPU) may be paired with.
pub open spec fn spec_max_memory_gb(vcpu: int) -> int {
    if vcpu == 25 {
        2
    } else if vcpu == 50 {
        4
    } else if vcpu == 100 {
        8
    } else if vcpu == 200 {
        16
    } else if vcpu == 400 {
        30
    } else {
        120
    }
}

/// The container memory tier in whole GB: the peak resident size rounded
/// up to whole GB, floored at the 0.5 GB minimum (which rounds up to 1 GB),
/// and clamped to the maximum for the paired vCPU tier.
pub open spec fn spec_memory_gb_tier(memory_bytes: int, vcpu: int) -> int {
    let desired = spec_ceil_div(memory_bytes, 1_048_576_000);
    let floored = if desired < 1 {
        1
    } else {
        desired
    };
    let cap = spec_max_memory_gb(vcpu);
    if floored > cap {
        cap
    } else {
        floored
    }
}

/// Picodollars per hour for a container task: the selected vCPU tier
/// (hundredths of a vCPU) at the per-vCPU-hour price plus the selected
/// memory tier (whole GB) at the per-GB-hour price.
pub open spec fn spec_fargate_hourly(p: RegionPricing, cpu_avg: int, memory_bytes: int) -> int {
    let vcpu = spec_vcpu_tier(cpu_avg);
    let gb = spec_memory_gb_tier(memory_bytes, vcpu);
    vcpu * p.fargate_vcpu_hour / 100 + gb * p.fargate_gb_hour
}

/// Picodollars charged for one container execution: the hourly rate over
/// the run's duration, in one floor division.
pub open spec fn spec_fargate_cost(
    p: RegionPricing,
    duration_ms: int,
    cpu_avg: int,
    memory_bytes: int,
) -> int {
    spec_fargate_hourly(p, cpu_avg, memory_bytes) * duration_ms / 3_600_000
}

/// Picodollars of managed-control-plane surcharge over the run's duration.
pub open spec fn spec_cluster_surcharge(p: RegionPricing, duration_ms: int) -> int {
    p.eks_cluster_hour * duration_ms / 3_600_000
}

/// Serverless cost figures, in picodollars: per execution, and extrapolated
/// to one million executions per month.
#[derive(Clone, Copy, Debug, PartialEq, Eq, Structural)]
pub struct LambdaCost {
    pub cost_per_execution: u128,
    pub monthly_cost_1m: u128,
}

/// Container-task cost figures, in picodollars: per execution, and
/// extrapolated to 730 continuous hours per month.
#[derive(Clone, Copy, Debug, PartialEq, Eq, Structural)]
pub struct FargateCost {
    pub cost_per_execution: u128,
    pub monthly_cost_continuous: u128,
}

/// Managed-cluster cost figures, in picodollars: the container figures plus
/// the control-plane surcharge, per execution and per 730-hour month.
#[derive(Clone, Copy, Debug, PartialEq, Eq, Structural)]
pub struct EksCost {
    pub cost_per_execution: u128,
    pub monthly_cost_continuous: u128,
}

/// Cost estimator bound to one region's price table.
pub struct CostEstimator {
    pub pricing: RegionPricing,
}

impl CostEstimator {
    /// Builds the estimator for a region, loading its price table.
    pub fn new(region: AwsRegion) -> (e: Self)
        ensures
            e.pricing == spec_pricing(region),
            e.pricing.wf(),
    {
        let pricing = match region {
            AwsRegion::UsEast1 => RegionPricing {
                lambda_gb_second: 16_666_700,
                lambda_per_million_requests: 200_000_000_000,
                fargate_vcpu_hour: 40_480_000_000,
                fargate_gb_hour: 4_445_000_000,
                eks_cluster_hour: 100_000_000_000,
            },
            AwsRegion::UsWest2 => RegionPricing {
                lambda_gb_second: 16_666_700,
                lambda_per_million_requests: 200_000_000_000,
                fargate_vcpu_hour: 40_480_000_000,
                fargate_gb_hour: 4_445_000_000,
                eks_cluster_hour: 100_000_000_000,
            },
            AwsRegion::EuWest1 => RegionPricing {
                lambda_gb_second: 16_666_700,
                lambda_per_million_requests: 200_000_000_000,
                fargate_vcpu_hour: 44_560_000_000,
                fargate_gb_hour: 4_890_000_000,
                eks_cluster_hour: 100_000_000_000,
            },
            AwsRegion::ApSoutheast1 => RegionPricing {
                lambda_gb_second: 16_666_700,
                lambda_per_million_requests: 200_000_000_000,
                fargate_vcpu_hour: 46_560_000_000,
                fargate_gb_hour: 5_107_000_000,
                eks_cluster_hour: 100_000_000_000,
            },
            AwsRegion::SaEast1 => RegionPricing {
                lambda_gb_second: 20_833_400,
                lambda_per_million_requests: 300_000_000_000,
                fargate_vcpu_hour: 56_640_000_000,
                fargate_gb_hour: 6_218_000_000,
                eks_cluster_hour: 100_000_000_000,
            },
        };
        Self { pricing }
    }

    /// Serverless (function-shaped) cost of one run, and its projection to
    /// one million monthly executions.
    ///
    /// The duration bound keeps the fixed-point arithmetic within 128 bits;
    /// it admits runs of roughly thirty-one years.
    pub fn estimate_lambda(&self, metrics: &ExecutionMetrics) -> (c: LambdaCost)
        requires
            self.pricing.wf(),
            metrics.duration_ms <= 1_000_000_000_000,
        ensures
            c.cost_per_execution == spec_lambda_cost(
                self.pricing,
                metrics.duration_ms as int,
                metrics.memory_bytes as int,
            ),
            c.monthly_cost_1m == c.cost_per_execution * 1_000_000,
    {
        let mb: u128 = (metrics.memory_bytes as u128 + 1_024_000 - 1) / 1_024_000;
        let billed_mb: u128 = if mb < 128 {
            128
        } else {
            mb
        };
        proof {
            lemma_div_is_ordered(
                metrics.memory_bytes as int + 1_024_000 - 1,
                0xffff_ffff_ffff_ffff + 1_024_000 - 1,
                1_024_000,
            );
            assert(billed_mb <= 20_000_000_000_000);
        }
        let duration: u128 = metrics.duration_ms as u128;
        let price: u128 = self.pricing.lambda_gb_second as u128;
        proof {
            lemma_mul_upper_bound(
                billed_mb as int,
                20_000_000_000_000,
                duration as int,
                1_000_000_000_000,
            );
            lemma_mul_upper_bound(
                billed_mb as int * duration as int,
                20_000_000_000_000 * (1_000_000_000_000 as int),
                price as int,
                1_000_000_000_000,
            );
        }
        let product: u128 = billed_mb * duration * price;
        proof {
            lemma_div_is_ordered(
                product as int,
                20_000_000_000_000 * (1_000_000_000_000 as int) * 1_000_000_000_000,
                1_024_000,
            );
        }
        let compute_cost: u128 = product / 1_024_000;
        let request_cost: u128 = (self.pricing.lambda_per_million_requests as u128) / 1_000_000;
        let cost_per_execution: u128 = compute_cost + request_cost;
        let monthly_cost_1m: u128 = cost_per_execution * 1_000_000;
        LambdaCost { cost_per_execution, monthly_cost_1m }
    }

    /// Container-task cost of one run, and the monthly cost of keeping the
    /// same tiers running for 730 hours.
    ///
    /// The two range clauses bound the figures by the largest possible
    /// hourly rate, so that the managed-cluster surcharge can be added on
    /// top without leaving 128 bits.
    pub fn estimate_ecs_fargate(&self, metrics: &ExecutionMetrics) -> (c: FargateCost)
        requires
            self.pricing.wf(),
        ensures
            c.cost_per_execution == spec_fargate_cost(
                self.pricing,
                metrics.duration_ms as int,
                metrics.cpu_avg as int,
                metrics.memory_bytes as int,
            ),
            c.monthly_cost_continuous == spec_fargate_hourly(
                self.pricing,
                metrics.cpu_avg as int,
                metrics.memory_bytes as int,
            ) * 730,
            c.cost_per_execution <= 0xffff_ffff_ffff_ffff * 140_000_000_000_000,
            c.monthly_cost_continuous <= 730 * 140_000_000_000_000,
    {
        let vcpu: u64 = self.calculate_vcpu(metrics.cpu_avg);
        let memory_gb: u64 = self.calculate_memory_gb(metrics.memory_bytes, vcpu);
        proof {
            lemma_mul_upper_bound(vcpu as int, 1600, self.pricing.fargate_vcpu_hour as int, 1_000_000_000_000);
            lemma_mul_upper_bound(memory_gb as int, 120, self.pricing.fargate_gb_hour as int, 1_000_000_000_000);
        }
        let hourly: u128 = (vcpu as u128) * (self.pricing.fargate_vcpu_hour as u128) / 100
            + (memory_gb as u128) * (self.pricing.fargate_gb_hour as u128);
        proof {
            assert(hourly <= 140_000_000_000_000);
            lemma_mul_upper_bound(
                hourly as int,
                140_000_000_000_000,
                metrics.duration_ms as int,
                0xffff_ffff_ffff_ffff,
            );
        }
        let cost_per_execution: u128 = hourly * (metrics.duration_ms as u128) / 3_600_000;
        let monthly_cost_continuous: u128 = hourly * 730;
        proof {
            lemma_div_is_ordered(
                hourly as int * metrics.duration_ms as int,
                140_000_000_000_000 * (0xffff_ffff_ffff_ffff as int),
                3_600_000,
            );
        }
        FargateCost { cost_per_execution, monthly_cost_continuous }
    }

    /// Managed-cluster cost of one run: the container figures plus a flat
    /// per-hour control-plane surcharge over the same duration (and over
    /// 730 hours for the monthly figure).
    pub fn estimate_eks_fargate(&self, metrics: &ExecutionMetrics) -> (c: EksCost)
        requires
            self.pricing.wf(),
        ensures
            c.cost_per_execution == spec_fargate_cost(
                self.pricing,
                metrics.duration_ms as int,
                metrics.cpu_avg as int,
                metrics.memory_bytes as int,
            ) + spec_cluster_surcharge(self.pricing, metrics.duration_ms as int),
            c.monthly_cost_continuous == spec_fargate_hourly(
                self.pricing,
                metrics.cpu_avg as int,
                metrics.memory_bytes as int,
            ) * 730 + self.pricing.eks_cluster_hour * 730,
    {
        let fargate_cost = self.estimate_ecs_fargate(metrics);
        proof {
            lemma_mul_upper_bound(
                self.pricing.eks_cluster_hour as int,
                1_000_000_000_000,
                metrics.duration_ms as int,
                0xffff_ffff_ffff_ffff,
            );
            lemma_div_is_ordered(
                self.pricing.eks_cluster_hour as int * metrics.duration_ms as int,
                1_000_000_000_000 * (0xffff_ffff_ffff_ffff as int),
                3_600_000,
            );
        }
        let cluster_cost_per_exec: u128 =
            (self.pricing.eks_cluster_hour as u128) * (metrics.duration_ms as u128) / 3_600_000;
        let cost_per_execution: u128 = fargate_cost.cost_per_execution + cluster_cost_per_exec;
        let monthly_cost_continuous: u128 =
            fargate_cost.monthly_cost_continuous + (self.pricing.eks_cluster_hour as u128) * 730;
        EksCost { cost_per_execution, monthly_cost_continuous }
    }

    /// The container vCPU tier (hundredths of a vCPU) for a CPU average
    /// given in hundredths of a percent.
    pub fn calculate_vcpu(&self, cpu_avg: u64) -> (r: u64)
        ensures
            r == spec_vcpu_tier(cpu_avg as int),
            r == 25 || r == 50 || r == 100 || r == 200 || r == 400 || r == 800 || r == 1600,
    {
        if cpu_avg <= 2500 {
            25
        } else if cpu_avg <= 5000 {
            50
        } else if cpu_avg <= 10000 {
            100
        } else if cpu_avg <= 20000 {
            200
        } else if cpu_avg <= 40000 {
            400
        } else if cpu_avg <= 80000 {
            800
        } else {
            1600
        }
    }

    /// The container memory tier in whole GB for a peak resident size in
    /// bytes, clamped to the maximum the vCPU tier may be paired with.
    pub fn calculate_memory_gb(&self, memory_bytes: u64, vcpu: u64) -> (r: u64)
        ensures
            r == spec_memory_gb_tier(memory_bytes as int, vcpu as int),
            r <= spec_max_memory_gb(vcpu as int),
            1 <= r <= 120,
    {
        let max_memory: u64 = if vcpu == 25 {
            2
        } else if vcpu == 50 {
            4
        } else if vcpu == 100 {
            8
        } else if vcpu == 200 {
            16
        } else if vcpu == 400 {
            30
        } else {
            120
        };
        let desired: u128 = (memory_bytes as u128 + 1_048_576_000 - 1) / 1_048_576_000;
        let floored: u128 = if desired < 1 {
            1
        } else {
            desired
        };
        if floored > max_memory as u128 {
            max_memory
        } else {
            floored as u64
        }
    }
}

/// Law: serverless cost is monotonically non-decreasing in the run's
/// duration and in its peak memory, holding the other fixed; so is its
/// monthly extrapolation.
pub proof fn lemma_lambda_cost_monotonic(p: RegionPricing, d1: int, d2: int, m1: int, m2: int)
    requires
        0 <= d1 <= d2,
        0 <= m1 <= m2,
    ensures
        spec_lambda_cost(p, d1, m1) <= spec_lambda_cost(p, d2, m2),
        spec_lambda_cost(p, d1, m1) * 1_000_000 <= spec_lambda_cost(p, d2, m2) * 1_000_000,
{
    lemma_div_is_ordered(m1 + 1_024_000 - 1, m2 + 1_024_000 - 1, 1_024_000);
    let b1 = spec_billed_mb(m1);
    let b2 = spec_billed_mb(m2);
    assert(128 <= b1 <= b2);
    lemma_mul_inequality(b1, b2, d1);
    lemma_mul_left_inequality(b2, d1, d2);
    assert(b1 * d1 <= b2 * d2);
    lemma_mul_inequality(b1 * d1, b2 * d2, p.lambda_gb_second as int);
    lemma_div_is_ordered(
        b1 * d1 * p.lambda_gb_second,
        b2 * d2 * p.lambda_gb_second,
        1_024_000,
    );
    lemma_mul_inequality(spec_lambda_cost(p, d1, m1), spec_lambda_cost(p, d2, m2), 1_000_000);
}

/// Law: vCPU tier selection always lands on one of the seven fixed tiers.
pub proof fn lemma_vcpu_tier_values(cpu_avg: int)
    ensures
        spec_vcpu_tier(cpu_avg) == 25 || spec_vcpu_tier(cpu_avg) == 50 || spec_vcpu_tier(cpu_avg)
            == 100 || spec_vcpu_tier(cpu_avg) == 200 || spec_vcpu_tier(cpu_avg) == 400
            || spec_vcpu_tier(cpu_avg) == 800 || spec_vcpu_tier(cpu_avg) == 1600,
{
}

/// Law: vCPU tier selection is monotonic: a higher CPU average never
/// selects a lower tier.
pub proof fn lemma_vcpu_tier_monotonic(a: int, b: int)
    requires
        a <= b,
    ensures
        spec_vcpu_tier(a) <= spec_vcpu_tier(b),
{
}

/// Law: vCPU tier selection is idempotent: a CPU load equal to a selected
/// tier (a tier of t hundredths of a vCPU equals a load of 100 * t
/// hundredths of a percent) selects that same tier again.
pub proof fn lemma_vcpu_tier_idempotent(cpu_avg: int)
    ensures
        spec_vcpu_tier(100 * spec_vcpu_tier(cpu_avg)) == spec_vcpu_tier(cpu_avg),
{
}

/// Law: the selected memory tier never exceeds the maximum for its paired
/// vCPU tier.
pub proof fn lemma_memory_tier_within_cap(memory_bytes: int, vcpu: int)
    ensures
        spec_memory_gb_tier(memory_bytes, vcpu) <= spec_max_memory_gb(vcpu),
{
}

} // verus!
