//! Verified core of a multi-backend database backup tool.
//!
//! The library covers the decision logic of the export pipeline: which
//! backend is selected, which databases are dumped, the exact dump command
//! line for each backend, what happens to a finished dump process, and how
//! the final report is ordered. All I/O (database drivers, process spawning,
//! file writes, compression) lives outside the library and is handed plain
//! values.

pub mod backend;
pub mod command;
pub mod config;
pub mod errors;
pub mod export;
pub mod numfmt;
pub mod report;
pub mod selection;
