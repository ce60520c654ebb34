//! Scans the files tracked by a repository for the `todox` marker.
//!
//! The library holds the whole decision logic: how a file's text is cut into
//! lines, which lines are flagged, how a diagnostic reads, and the status of a
//! run. Reading files, listing tracked paths and writing to a console belong to
//! the caller, which hands this library plain strings.

pub mod laws;
pub mod lines;
pub mod marker;
pub mod report;
pub mod scan;
pub mod text;
