//! The argument set of the formatting command, as plain data. Running the
//! command — planning, invoking formatters, rendering results, staging
//! files — happens outside this layer; what stands here is the record of
//! choices a caller hands down, with paths held as strings.

use vstd::prelude::*;

verus! {

/// Options of the formatting command.
#[derive(Debug, Clone, PartialEq, Eq)]
pub struct Fmt {
    /// Check all files, not just changed ones.
    pub all: bool,
    /// Disable the progress bar.
    pub no_progress: bool,
    /// Exit successfully regardless of linter errors.
    pub no_error: bool,
    /// Sample results from a number of files for each linter.
    pub sample: Option<usize>,
    /// Maximum number of concurrent jobs.
    pub jobs: Option<u32>,
    /// Filter by plugin or check.
    pub filter: Option<String>,
    /// Verbosity of the output.
    pub verbose: u8,
    /// Upstream reference to compare against.
    pub upstream: Option<String>,
    /// Format files in the index.
    pub index: bool,
    /// Format files in the named index file.
    pub index_file: Option<String>,
    /// Files to analyze.
    pub paths: Vec<String>,
}

impl Default for Fmt {
    /// The command with nothing asked for: every flag off, no limits, no
    /// filter, no paths.
    fn default() -> (r: Fmt)
        ensures
            !r.all,
            !r.no_progress,
            !r.no_error,
            r.sample is None,
            r.jobs is None,
            r.filter is None,
            r.verbose == 0,
            r.upstream is None,
            !r.index,
            r.index_file is None,
            r.paths@.len() == 0,
    {
        Fmt {
            all: false,
            no_progress: false,
            no_error: false,
            sample: None,
            jobs: None,
            filter: None,
            verbose: 0,
            upstream: None,
            index: false,
            index_file: None,
            paths: Vec::new(),
        }
    }
}

} // verus!
