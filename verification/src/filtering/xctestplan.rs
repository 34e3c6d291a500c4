//! The shape of an `.xctestplan` file, as far as this library reads it.

use vstd::prelude::*;

verus! {

/// A full test plan.
pub struct TestPlan {
    pub configurations: Vec<Configuration>,
    pub default_options: Options,
    pub test_targets: Vec<TestTarget>,
    pub version: u32,
}

/// The parts of a test plan this library needs.
pub struct SparseTestPlan {
    pub configurations: Vec<Configuration>,
    pub test_targets: Vec<TestTarget>,
}

/// One named configuration of a test plan.
pub struct Configuration {
    pub id: String,
    pub name: String,
    pub options: Options,
}

/// The options block of a plan or configuration.
pub struct Options {
    pub environmnent_variables: Option<Vec<EnvironmentVariableEntry>>,
    pub target_for_variable_expansion: Option<Target>,
    pub address_sanitizer: Option<AddressSanitizer>,
    pub thread_sanitizer_enabled: Option<bool>,
    pub undefined_behavior_sanitizer_enabled: Option<bool>,
    pub command_line_arguments: Option<Vec<CommandLineArgumentEntry>>,
    pub language: Option<String>,
    pub region: Option<String>,
    pub location_scenario: Option<LocationScenario>,
    pub test_timeouts_enabled: Option<bool>,
    pub test_repetition_mode: Option<TestRepetitionMode>,
    pub test_execution_ordering: Option<TestExecutionOrdering>,
    pub maximum_test_repetitions: Option<u32>,
    pub default_test_execution_time_allowance: Option<u32>,
    pub maximum_test_execution_time_allowance: Option<u32>,
    pub code_coverage: Option<bool>,
    pub ui_testing_screenshots_lifetime: Option<AttachmentLifetime>,
    pub main_thread_checker_enabled: Option<bool>,
    pub nszombie_enabled: Option<bool>,
    pub guard_malloc_enabled: Option<bool>,
    pub malloc_guard_edges_enabled: Option<bool>,
    pub malloc_scribble_enabled: Option<bool>,
    pub malloc_stack_logging: Option<MallocStackLoggingOptions>,
    pub are_localization_screenshots_enabled: Option<bool>,
    pub diagnostic_collection_policy: Option<DiagnosticCollectionPolicy>,
    pub preferred_screen_capture_format: Option<ScreenCaptureFormat>,
    pub user_attachment_lifetime: Option<AttachmentLifetime>,
}

/// A build target a plan refers to.
pub struct Target {
    pub container_path: String,
    pub identifier: String,
    pub name: String,
}

/// One command-line argument entry.
pub struct CommandLineArgumentEntry {
    pub argument: String,
    pub enabled: Option<bool>,
}

/// One environment variable entry.
pub struct EnvironmentVariableEntry {
    pub key: String,
    pub value: String,
    pub enabled: Option<bool>,
}

/// A simulated location.
pub struct LocationScenario {
    pub identifier: String,
    pub reference_type: Option<LocationReferenceType>,
}

/// One test target with its selected and skipped tests.
pub struct TestTarget {
    pub parallelizable: Option<bool>,
    pub skipped_tests: Option<Vec<String>>,
    pub selected_tests: Option<Vec<String>>,
    pub target: Target,
    pub enabled: Option<bool>,
}

/// The parts of a test target this library needs.
pub struct SparseTestTarget {
    pub skipped_tests: Option<Vec<String>>,
    pub selected_tests: Option<Vec<String>>,
    pub target: Target,
}

/// Address-sanitizer options.
pub struct AddressSanitizer {
    pub detect_stack_use_after_return: Option<bool>,
    pub enabled: Option<bool>,
}

/// Malloc stack-logging options.
pub struct MallocStackLoggingOptions {
    pub logging_type: Option<MallocStackLoggingType>,
}

/// What malloc stack logging records.
pub enum MallocStackLoggingType {
    LiveAllocationsOnly,
    AllAllocationsAndFreeHistory,
}

/// The order tests run in.
pub enum TestExecutionOrdering {
    Random,
    Alphabetical,
}

/// How long attachments are kept.
pub enum AttachmentLifetime {
    OnAndKeepAll,
    OnAndDeleteIfTestSucceeds,
    Off,
}

/// How test repetitions are driven.
pub enum TestRepetitionMode {
    UntilFailure,
    RetryOnFailure,
    UpUntilMaximumRepetitions,
    NoRepetition,
}

/// The format screen captures use.
pub enum ScreenCaptureFormat {
    Screenshot,
    RetryOnFailure,
}

/// When diagnostics are collected.
pub enum DiagnosticCollectionPolicy {
    WhenTestingWithXcodebuild,
    Never,
    Always,
}

/// How a location scenario is referenced.
pub enum LocationReferenceType {
    BuiltIn,
}

} // verus!
