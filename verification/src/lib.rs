//! Retention and archival of the files of one directory.
//!
//! A pass over a directory listing decides, entry by entry, which files are
//! compressed into archive units, which are left alone, and which archive
//! units are pruned afterwards. Everything here works on plain values: the
//! caller lists the directory, performs the file operations that the plan
//! asks for, and reports how they went.

pub mod archiver;
pub mod args;
pub mod eligibility;
pub mod entry;
pub mod error;
pub mod exclude;
pub mod gate;
pub mod guarantees;
pub mod latest;
pub mod orchestrator;
pub mod pass;
pub mod paths;
pub mod retention;
pub mod size;
pub mod watch;

pub use args::Args;
pub use pass::run_archive_loop;
