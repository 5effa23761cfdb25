//! Command-line arguments of the editor: one positional argument, the file
//! to open.  The argument parsing itself lives with the program around the
//! library; this is the parsed shape.

use vstd::prelude::*;

verus! {

#[derive(Debug)]
pub struct Cli {
    /// File to open.
    pub filename: String,
}

} // verus!
