//! What the command line of a capture station can ask for.
use vstd::prelude::*;

verus! {

/// A path in the file system.
#[verifier::external_type_specification]
#[verifier::external_body]
pub struct ExPathBuf(std::path::PathBuf);

/// What the station is asked to do.
#[derive(Debug)]
pub enum Subcommand {
    /// Captures images and saves them
    Run(Run),
    /// Write the default config file to a path.
    WriteConfig {
        /// The path to write the default config to. If not provided or --, writes to stdout.
        path: std::path::PathBuf,
    },
}

/// Where a capture run reads and writes.
#[derive(Debug)]
pub struct Run {
    /// The path to save images to
    pub save_dir: std::path::PathBuf,
    /// The path to save logs to
    pub log_dir: std::path::PathBuf,
    /// The path to the KDL config file
    pub config: std::path::PathBuf,
}

} // verus!
