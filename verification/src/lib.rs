//! Fleet telemetry: simulated vehicle messages, the per-vehicle update
//! schedule of the aggregator, the keys and window of the recent-message
//! lists, and the counter state of the terminal dashboard.
pub mod decimal;
pub mod telemetry;
pub mod fleet;
pub mod aggregator;
pub mod recent;
pub mod dashboard;
