//! The configuration data model: an ordered list of backup jobs.
//!
//! Loading the configuration file itself (reading, environment expansion,
//! decoding) is I/O done by the surrounding binary; the records it produces
//! are these.

use vstd::prelude::*;

verus! {

/// The whole configuration: the jobs, run strictly in this order.
pub struct Config {
    pub backup: Vec<BackupJob>,
}

/// One configured unit of work: a source path backed up into a repository,
/// wrapped in optional lifecycle hook groups.
///
/// Hook lists run in the given order; an absent list means no hooks. The
/// `env` entries are added to the backup process's environment, and
/// `extra_args` are appended verbatim to its argument vector.
pub struct BackupJob {
    pub name: String,
    pub repository: String,
    pub source: String,
    pub env: Option<Vec<(String, String)>>,
    pub before: Option<Vec<String>>,
    pub after: Option<Vec<String>>,
    pub failure: Option<Vec<String>>,
    pub success: Option<Vec<String>>,
    pub extra_args: Option<Vec<String>>,
}

/// The items of one optional list, in order; absent means empty.
pub open spec fn opt_strings(g: Option<Vec<String>>) -> Seq<String> {
    match g {
        Some(v) => v@,
        None => Seq::empty(),
    }
}

} // verus!
