//! Host metrics store: timestamped snapshots of resource counters, the
//! versioned store that keeps them in append order, the retention sweep, the
//! lock-sentinel protocol and the derivation of chartable series.
//!
//! Every quantity is an integer. Fractional readings (percentages, load
//! averages, temperatures) are held in thousandths of their unit.

pub mod units;
pub mod timestamp;
pub mod snapshot;
pub mod errors;
pub mod version;
pub mod database;
pub mod series;
pub mod charts;
pub mod lock;
pub mod session;
pub mod thresholds;
pub mod page;
pub mod host;

pub use timestamp::Timestamp;
