//! The configuration of one run.

use vstd::prelude::*;

verus! {

/// The configuration of one run of the pipe viewer. It is set once, before
/// the workers start, and only read after that.
#[derive(Debug)]
pub struct Args {
    /// The file to read from; standard input where there is none.
    pub infile: Option<String>,
    /// The file to write to; standard output where there is none.
    pub outfile: Option<String>,
    /// Whether progress lines are suppressed.
    pub silent: bool,
}

} // verus!
