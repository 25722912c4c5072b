//! A pattern-based scanner for smart-contract source text.
//!
//! The scanner splits a source text into lines, applies every applicable
//! detection rule to every line, and renders the findings grouped by
//! severity. Reading files and walking directories is left to the caller, who
//! asks `walk` what to do with each directory entry.

pub mod checklist;
pub mod pattern;
pub mod platform;
pub mod registry;
pub mod report;
pub mod scan;
pub mod severity;
pub mod walk;
