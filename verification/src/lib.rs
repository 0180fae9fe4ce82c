//! Heuristic engine for system tuning: a process-priority calculator, a
//! process-list relabeler, a weighted performance scorer, and a small
//! stateful optimizer accumulator.
//!
//! Percentages and efficiency levels are carried as fixed-point integers in
//! hundredths (so `8050` stands for `80.50`), which is the resolution the
//! status report prints.

pub mod optimizer;
pub mod priority;
pub mod relabel;
pub mod score;
pub mod text;

pub use optimizer::SystemOptimizer;
pub use priority::calculate_process_priority;
pub use relabel::optimize_system_resources;
pub use score::MetricSet;
pub use score::calculate_performance_score;
