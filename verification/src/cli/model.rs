//! Plain data shared by the command-line front ends.

use vstd::prelude::*;

verus! {

/// The platform a run targets.
#[derive(Debug, Clone, PartialEq, Eq)]
pub enum Platform {
    Android,
    #[allow(non_camel_case_types)]
    iOS,
}

impl Platform {
    /// The platform identifier sent to the service.
    pub fn name(&self) -> (r: String)
        ensures
            self is Android ==> r@ == "Android"@,
            self is iOS ==> r@ == "iOS"@,
    {
        match self {
            Platform::Android => String::from_str("Android"),
            Platform::iOS => String::from_str("iOS"),
        }
    }
}

/// A file already uploaded to the service.
#[derive(Debug, Clone, PartialEq, Eq)]
pub struct FileReference {
    pub url: String,
    pub md5: String,
}

/// A local file together with its content hash.
#[derive(Debug, Clone, PartialEq, Eq)]
pub struct LocalFileReference {
    pub path: String,
    pub md5: String,
}

} // verus!
