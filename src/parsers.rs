use vstd::prelude::*;

verus! {

/// What the user asked for: a template name and, optionally, the name of the
/// directory to create.
#[derive(Debug, Clone, PartialEq, Eq)]
pub struct ProcessorArgs {
    pub template: String,
    pub project: Option<String>,
}

} // verus!
