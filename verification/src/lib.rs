//! Batch syntax-health scanning: discover source files under project
//! directories, parse each with a C grammar, find parse-error nodes, and
//! aggregate per-project counts of errored files and their locations.

pub mod discovery;
pub mod model;
pub mod report;
pub mod scan;
