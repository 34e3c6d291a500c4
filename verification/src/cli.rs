//! Decision logic behind the command-line front end.
//!
//! Argument parsing itself happens outside the library; these modules hold
//! the validation and inference rules the front end applies.

pub mod android;
pub mod ios;
pub mod maestro;
pub mod model;
pub mod validate;

use vstd::prelude::*;

verus! {

/// Per-test retry quotas requested for a run.
#[derive(Debug, Clone, PartialEq, Eq)]
pub struct RetryArgs {
    pub retry_quota_test_uncompleted: Option<u32>,
    pub retry_quota_test_preventive: Option<u32>,
    pub retry_quota_test_reactive: Option<u32>,
    pub no_retries: bool,
}

impl RetryArgs {
    /// Quotas with retries left enabled.
    pub fn new(
        retry_quota_test_uncompleted: Option<u32>,
        retry_quota_test_preventive: Option<u32>,
        retry_quota_test_reactive: Option<u32>,
    ) -> (r: RetryArgs)
        ensures
            r.retry_quota_test_uncompleted == retry_quota_test_uncompleted,
            r.retry_quota_test_preventive == retry_quota_test_preventive,
            r.retry_quota_test_reactive == retry_quota_test_reactive,
            r.no_retries == false,
    {
        RetryArgs {
            retry_quota_test_uncompleted,
            retry_quota_test_preventive,
            retry_quota_test_reactive,
            no_retries: false,
        }
    }
}

} // verus!
