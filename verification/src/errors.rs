//! Error taxonomy of the library.
//!
//! Causes coming from the transport or the filesystem are carried as plain
//! message strings; the library itself never performs I/O.

use vstd::prelude::*;

verus! {

/// Failures of the remote API: transport, status codes and malformed bodies.
#[derive(Debug, Clone, PartialEq, Eq)]
pub enum ApiError {
    InvalidParameters { error: String },
    DeserializationFailure { error: String },
    RequestFailed { error: String },
    RequestFailedWithCode { status_code: u16, error: String, body: String },
    InvalidAuthenticationToken { error: String },
}

/// Failures while parsing `KEY=VALUE` environment arguments.
#[derive(Debug, Clone, PartialEq, Eq)]
pub enum EnvArgError {
    InvalidKeyValue { env_arg: String },
    MissingValue { env_arg: String },
}

/// Failures while parsing `ROOT:PATH` pull-file arguments.
#[derive(Debug, Clone, PartialEq, Eq)]
pub enum PullArgError {
    InvalidFormat { arg: String },
    InvalidRootType { used_type: String },
}

/// Failures while enumerating or retrieving run artifacts.
#[derive(Debug, Clone, PartialEq, Eq)]
pub enum ArtifactError {
    ListFailed { error: String },
    DownloadFailed { error: String },
    InvalidGlobPattern { pattern: String },
}

/// Failures caused by user-supplied files and values.
#[derive(Debug, Clone, PartialEq, Eq)]
pub enum InputError {
    InvalidFileName { path: String },
    OpenFileFailure { path: String, error: String },
    InvalidApplicationBundle { bundle: String },
    XctestplanMissingTargets,
    NonUTF8Path { path: String },
    UnsupportedArtifact { path: String, supported_files: String, supported_folders: String },
    InvalidFileExtension { extension: String, supported: String },
    NonPositiveValue { arg: String },
    DuplicatedApplicationBundle { app: String, test: String },
    IncorrectPermission { permissions: Vec<String> },
}

/// A run configuration the service does not support.
#[derive(Debug, Clone, PartialEq, Eq)]
pub enum ConfigurationError {
    UnsupportedRunConfiguration { message: String },
}

/// Failures in a test-filtering configuration file.
#[derive(Debug, Clone, PartialEq, Eq)]
pub enum FilteringConfigurationError {
    UnsupportedFilterType { mtype: String },
    InvalidFilterType { mtype: String },
    InvalidFilterConfiguration { mtype: String, message: String },
    MissedMandatoryFields { fields: String },
}

} // verus!
