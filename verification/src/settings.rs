//! The options that the index builder is run with.

use vstd::prelude::*;

verus! {

/// The settings that can be provided either programmatically or as command
/// line options.
#[derive(Debug)]
pub struct Settings {
    /// The path to Hugo's contents directory.
    pub scan_path: std::path::PathBuf,
    /// The path that the index will be written to; stdout where absent.
    pub output: Option<std::path::PathBuf>,
    /// Include drafts in the output. By default, drafts are not included.
    pub drafts: bool,
}

} // verus!
