//! Classification and aggregation of property-listing records.
//!
//! A listing is classified by its two price fields into one of four
//! commercial categories; per-category statistics (row counts, duplicate
//! identifiers, status-label tallies) are accumulated over one pass of the
//! input rows and merged into a grand total.

pub mod classify;
pub mod merge;
pub mod render;
pub mod report;
pub mod stats;

pub use classify::PropertyType;
pub use classify::property_type;
pub use report::ListingRecord;
pub use report::StatsReport;
pub use stats::ParcialStats;
