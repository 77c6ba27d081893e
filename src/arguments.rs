use vstd::prelude::*;

verus! {

/// The command line of the harness.
#[derive(Clone, Debug, PartialEq)]
pub struct Args {
    /// Path to the extension
    pub extension: String,
    /// Settings for the extension, as a JSON object
    pub settings: Option<String>,
}

} // verus!
