//! A named log channel.
//!
//! The library only carries the channel's name; printing is input/output and
//! belongs to the surrounding application.

use vstd::prelude::*;

verus! {

/// A log channel tagged with the name of the module it reports for.
#[derive(Debug)]
pub struct Logger {
    pub module: String,
}

impl Logger {
    pub fn new(module: &str) -> (l: Logger)
        ensures
            l.module@ == module@,
    {
        Logger { module: String::from_str(module) }
    }
}

} // verus!
