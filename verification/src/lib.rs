//! A process-wide metrics aggregation core for a networked node.
//!
//! The library keeps a fixed set of named counters and gauges, grouped by
//! category, and dispatches `(identifier, value)` events to the matching
//! storage cell by exact name match. Unknown identifiers are reported and
//! dropped without disturbing any cell.

pub mod cells;
pub mod fixed;
pub mod ids;
pub mod laws;
pub mod stats;
