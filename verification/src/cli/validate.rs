//! Validation rules the command-line front end applies before a run is
//! submitted.

use vstd::prelude::*;

use crate::cli::model::LocalFileReference;
use crate::cli::RetryArgs;
use crate::errors::InputError;
use crate::interactor::result_file_format;
use crate::strutil::spec_extension;
use crate::strutil::str_eq;

verus! {

/// Apply `--no-retries`: it zeroes every quota.
pub fn retry_args(args: RetryArgs) -> (r: RetryArgs)
    ensures
        args.no_retries ==> r == (RetryArgs {
            retry_quota_test_uncompleted: Some(0u32),
            retry_quota_test_preventive: Some(0u32),
            retry_quota_test_reactive: Some(0u32),
            no_retries: false,
        }),
        !args.no_retries ==> r == args,
{
    if args.no_retries {
        RetryArgs::new(Some(0), Some(0), Some(0))
    } else {
        args
    }
}

/// A result-file path must carry a `json`, `yaml` or `yml` extension; no
/// path at all is fine.
pub fn result_file_args(result_file: &Option<String>) -> (r: Result<(), InputError>)
    ensures
        r is Ok <==> match result_file {
            None => true,
            Some(p) => spec_extension(p@) matches Some(e) && (e == "json"@ || e == "yaml"@ || e
                == "yml"@),
        },
        r matches Err(e) ==> result_file is Some,
{
    match result_file {
        None => Ok(()),
        Some(path) => {
            match result_file_format(path.as_str()) {
                Ok(_) => Ok(()),
                Err(e) => Err(e),
            }
        },
    }
}

/// An application and its test application may not be the same file.
pub fn ensure_distinct_bundle(
    application: &LocalFileReference,
    test_application: &LocalFileReference,
) -> (r: Result<(), InputError>)
    ensures
        r is Ok <==> application.md5@ != test_application.md5@,
        r matches Err(e) ==> e == (InputError::DuplicatedApplicationBundle {
            app: application.path,
            test: test_application.path,
        }),
{
    if application.md5 == test_application.md5 {
        Err(
            InputError::DuplicatedApplicationBundle {
                app: application.path.clone(),
                test: test_application.path.clone(),
            },
        )
    } else {
        Ok(())
    }
}

/// A limit given on the command line must be positive.
pub fn ensure_positive(limit: Option<u32>, arg: &str) -> (r: Result<(), InputError>)
    ensures
        r is Ok <==> limit != Some(0u32),
        r matches Err(e) ==> e matches InputError::NonPositiveValue { arg: a } && a@ == arg@,
{
    match limit {
        Some(0) => Err(InputError::NonPositiveValue { arg: arg.to_owned() }),
        _ => Ok(()),
    }
}

/// Whether `list` holds a string equal to `v`.
pub fn list_contains(list: &Vec<String>, v: &str) -> (r: bool)
    ensures
        r == exists|k: int| 0 <= k < list@.len() && (#[trigger] list@[k])@ == v@,
{
    let n = list.len();
    let mut i: usize = 0;
    while i < n
        invariant
            n == list@.len(),
            i <= n,
            forall|k: int| 0 <= k < i ==> (#[trigger] list@[k])@ != v@,
        decreases n - i,
    {
        if str_eq(list[i].as_str(), v) {
            return true;
        }
        i = i + 1;
    }
    false
}

/// What to do with a bundle path before upload.
#[derive(Debug, Clone, Copy, PartialEq, Eq, Structural)]
pub enum BundleFormat {
    /// A file with an accepted extension: upload as it is.
    Ready,
    /// A directory with an accepted extension: zip it first.
    NeedsZip,
    /// Anything else is refused.
    Unsupported,
}

/// Decide how a bundle path is brought into uploadable shape: files with an
/// accepted extension go as they are; directories with an accepted
/// extension (or any directory, when no directory extensions are named)
/// are zipped; everything else is unsupported.
pub fn classify_bundle_format(
    path: &str,
    is_file: bool,
    is_dir: bool,
    supported_extensions_file: &Vec<String>,
    supported_extensions_dir: &Vec<String>,
) -> (r: BundleFormat)
    ensures
        r is Ready <==> (is_file && (spec_extension(path@) matches Some(e) && exists|k: int|
            0 <= k < supported_extensions_file@.len()
                && (#[trigger] supported_extensions_file@[k])@ == e)),
        !(r is Ready) ==> (r is NeedsZip <==> (is_dir && (supported_extensions_dir@.len() == 0
            || (spec_extension(path@) matches Some(e) && exists|k: int|
                0 <= k < supported_extensions_dir@.len()
                    && (#[trigger] supported_extensions_dir@[k])@ == e)))),
{
    let ext = crate::strutil::extension_of(path);
    let ext_in_files = match &ext {
        Some(e) => list_contains(supported_extensions_file, e.as_str()),
        None => false,
    };
    if is_file && ext_in_files {
        return BundleFormat::Ready;
    }
    let ext_in_dirs = match &ext {
        Some(e) => list_contains(supported_extensions_dir, e.as_str()),
        None => false,
    };
    if is_dir && (supported_extensions_dir.len() == 0 || ext_in_dirs) {
        BundleFormat::NeedsZip
    } else {
        BundleFormat::Unsupported
    }
}

} // verus!
