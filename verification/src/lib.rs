//! Verified core of a stock-bar ingestion and aggregate-query tool.
//!
//! The library converts historical price bars into store-ready data points,
//! renders aggregate range queries (maximum of `high` / minimum of `low` over
//! a half-open time window) with injection-safe quoting, interprets the
//! store's response rows, and assembles per-symbol ingestion reports with a
//! bounded retry policy.  All network and store I/O lives outside the
//! library; callers hand it plain values and get plain values back.

pub mod bar;
pub mod evaluate;
pub mod extract;
pub mod ingest;
pub mod point;
pub mod query;
pub mod symbol;
pub mod text;
pub mod timeparse;

pub use bar::Bar;
pub use bar::Price;
pub use extract::AggregateResult;
pub use ingest::IngestSummary;
pub use point::Point;
pub use query::AggregateQuerySpec;
pub use query::Operation;
pub use query::RangeQuery;
pub use symbol::SymbolTag;
