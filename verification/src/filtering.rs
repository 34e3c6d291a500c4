//! Test-filter configuration: the model, the conversion rules and the
//! validation applied before a configuration is sent with a run.

pub mod convert;
pub mod model;
pub mod xctestplan;

pub use model::Filter;
pub use model::FilteringConfiguration;

use vstd::prelude::*;

verus! {

/// A filter file under its original top-level name.
#[derive(Debug, PartialEq, Eq)]
pub struct Marathonfile {
    pub filtering_configuration: FilteringConfiguration,
}

} // verus!
