//! The test-filter configuration model.

use vstd::prelude::*;

verus! {

/// A filter file reduced to the one section this library sends on.
#[derive(Debug, PartialEq, Eq)]
pub struct SparseMarathonfile {
    pub filtering_configuration: FilteringConfiguration,
}

/// Allow and block lists of test filters.
#[derive(Debug, PartialEq, Eq)]
pub struct FilteringConfiguration {
    pub allowlist: Option<Vec<Filter>>,
    pub blocklist: Option<Vec<Filter>>,
}

/// One filter: a type plus exactly one of a regex, a value list or a value
/// file, or a composition of further filters under an operation.
#[derive(Debug, PartialEq, Eq)]
pub struct Filter {
    pub mtype: String,
    pub regex: Option<String>,
    pub values: Option<Vec<String>>,
    pub file: Option<String>,
    pub filters: Option<Vec<Filter>>,
    pub op: Option<String>,
}

} // verus!
