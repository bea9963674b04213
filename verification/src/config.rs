//! The daemon's configuration.

use vstd::prelude::*;

verus! {

/// The directory to watch, and the paths and commands whose events are not
/// recorded.
pub struct Config {
    pub target_dir: String,
    pub ignore_path: Vec<String>,
    pub ignore_cmd: Vec<String>,
}

} // verus!
