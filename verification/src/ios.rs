//! The iOS build pipeline: a placeholder so far, as in the rest of the
//! tool; the builder only records its defaults.

use vstd::prelude::*;
use vstd::string::StringExecFns;

verus! {

/// Builds an iOS application bundle. Every phase is a placeholder so
/// far: constructing the builder records a non-release build of a
/// placeholder target.
pub struct IOSBuilder {
    pub release: bool,
    pub target: String,
}

impl IOSBuilder {
    /// The placeholder builder: not a release build, with a placeholder
    /// target name.
    pub fn new() -> (r: IOSBuilder)
        ensures
            r.release == false,
            r.target@ == "target"@,
    {
        IOSBuilder { release: false, target: String::from_str("target") }
    }
}

} // verus!
