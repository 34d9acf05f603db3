//! Video-restoration worker library.
//!
//! Renders filter-pipeline scripts from templates, models the restoration
//! job configuration, and drives the two-process encoding pipeline's
//! decisions: diagnostic-line parsing, progress and ETA computation,
//! cancellation, and exit-code policy.

pub mod dependency_locator;
pub mod filter_schema;
pub mod models;
pub mod numfmt;
pub mod parse;
pub mod pipeline_executor;
pub mod platform;
pub mod progress_reporter;
pub mod schema_script_generator;
pub mod script_generator;
pub mod text;
