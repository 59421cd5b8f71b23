//! The command-line arguments of a run.

use vstd::prelude::*;

verus! {

/// What a run is asked to do: the markdown file to read, the base
/// directory to work in, and whether existing files are overwritten.
#[derive(Debug)]
pub struct Cli {
    pub markdown_file: String,
    pub output_dir: String,
    pub force: bool,
}

} // verus!
