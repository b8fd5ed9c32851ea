//! Verified core of a two-framework HTTP benchmarking demo.
//!
//! The crate holds the logic of a benchmarking harness that fires a fixed
//! request budget at two mock web services and compares them: partitioning
//! the budget across concurrent workers, folding per-worker outcomes into
//! aggregate throughput and success statistics, deciding when the targets
//! are ready, and the shared data model and mock handler rules that both
//! services expose.  Network I/O, task spawning and rendering live outside
//! the library; they hand plain values in and take plain values back.

pub mod auth;
pub mod bench;
pub mod error;
pub mod graphql;
pub mod handlers;
pub mod models;
pub mod prober;
pub mod scenario;
pub mod sys;
