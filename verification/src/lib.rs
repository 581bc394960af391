//! Resource metering and tiered cloud-cost estimation.
//!
//! The library has two halves. `metrics` holds the sampling state machine
//! that accumulates CPU/memory observations of a supervised process and
//! reduces them into an `ExecutionMetrics` summary. `aws_cost` maps such a
//! summary onto discretized cloud pricing tiers and per-region price tables,
//! yielding per-execution and monthly cost figures.
//!
//! All quantities are held as scaled integers: CPU percentages in hundredths
//! of a percent, memory in bytes, and money in picodollars (10^-12 USD), so
//! every formula is exact and stated in the contracts.

pub mod aws_cost;
pub mod metrics;
