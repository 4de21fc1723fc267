//! The text that is compiled.

use vstd::prelude::*;

verus! {

/// The text being compiled, with the path it is shown under.
///
/// Every `Range` produced while compiling a source indexes into its `raw` text.
pub struct Source<'a> {
    pub raw: &'a str,
    pub path: &'a str,
}

impl<'a> Source<'a> {
    /// A source with the path it is shown under and its text.
    pub fn new(path: &'a str, raw: &'a str) -> (source: Source<'a>)
        ensures
            source.path@ == path@,
            source.raw@ == raw@,
    {
        Source { path, raw }
    }
}

} // verus!
