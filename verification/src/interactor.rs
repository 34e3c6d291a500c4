//! Run-lifecycle orchestration: polling to a terminal state, the phase
//! machine from submission to the reported outcome, and the artifact-list
//! filter.
//!
//! The network calls themselves happen outside the library; the caller
//! drives these machines with the values that come back.

use vstd::prelude::*;

use crate::api::Artifact;
use crate::api::TestRun;
use crate::errors::ApiError;
use crate::errors::ArtifactError;
use crate::errors::InputError;
use crate::strutil::str_eq;

verus! {

/// Seconds between two status polls.
pub const POLL_INTERVAL_SECONDS: u64 = 5;

/// A status record is terminal exactly when its completion timestamp is set.
pub fn is_terminal(status: &TestRun) -> (r: bool)
    ensures
        r == (status.completed is Some),
{
    status.completed.is_some()
}

/// Await a terminal status against a sequence of poll responses:
/// `polls[k]` is what the `k + 1`-th poll would return. The first terminal
/// record is returned together with the number of polls it took; earlier
/// responses were all non-terminal. `None` means the sequence never turned
/// terminal, in which case a live poller would still be waiting.
pub fn await_terminal(polls: &Vec<TestRun>) -> (r: Option<(TestRun, usize)>)
    ensures
        r matches Some(pair) ==> {
            &&& 1 <= pair.1 <= polls@.len()
            &&& pair.0 == polls@[pair.1 - 1]
            &&& pair.0.completed is Some
            &&& forall|j: int| 0 <= j < pair.1 - 1 ==> (#[trigger] polls@[j]).completed is None
        },
        r is Some <==> exists|j: int|
            0 <= j < polls@.len() && (#[trigger] polls@[j]).completed is Some,
{
    let n = polls.len();
    let mut k: usize = 0;
    while k < n
        invariant
            n == polls@.len(),
            k <= n,
            forall|j: int| 0 <= j < k ==> (#[trigger] polls@[j]).completed is None,
        decreases n - k,
    {
        if is_terminal(&polls[k]) {
            return Some((polls[k].duplicate(), k + 1));
        }
        k = k + 1;
    }
    None
}

/// Whether a terminal run counts as a success for the process exit code.
pub open spec fn spec_exit_outcome(state: Seq<char>, ignore_test_failures: Option<bool>) -> bool {
    !(state == "failure"@ && ignore_test_failures != Some(true))
}

/// A run that ended in `failure` fails the invocation unless the caller
/// asked to ignore test failures; every other terminal state succeeds.
pub fn exit_outcome(state: &str, ignore_test_failures: Option<bool>) -> (r: bool)
    ensures
        r == spec_exit_outcome(state@, ignore_test_failures),
{
    let failed = str_eq(state, "failure");
    match ignore_test_failures {
        Some(true) => true,
        _ => !failed,
    }
}

/// The process exit code for an orchestration outcome.
pub fn exit_code(success: bool) -> (r: i32)
    ensures
        success ==> r == 0,
        !success ==> r == 1,
{
    if success {
        0
    } else {
        1
    }
}

/// What `url` yields for a parsable URL when sliced from its start through
/// the end of its port position.
pub uninterp spec fn url_origin_prefix(url: Seq<char>) -> Seq<char>;

/// Whether `url` accepts this string as an absolute URL.
pub uninterp spec fn url_parse_ok(url: Seq<char>) -> bool;

/// Relies on `url::Url::parse` and indexing with `url::Position::AfterPort`:
/// parsing accepts or rejects the string on its content alone, and the slice
/// through the port is a function of the string alone.
#[verifier::external_body]
fn url_prefix_through_port(base_url: &str) -> (r: Option<String>)
    ensures
        r is Some <==> url_parse_ok(base_url@),
        r matches Some(p) ==> p@ == url_origin_prefix(base_url@),
{
    match url::Url::parse(base_url) {
        Ok(u) => Some(u[..url::Position::AfterPort].to_string()),
        Err(_) => None,
    }
}

/// The report page of a run: the base URL cut back to scheme, host and
/// port, then `/runs/<id>/report`.
pub fn report_url(base_url: &str, run_id: &str) -> (r: Result<String, ApiError>)
    ensures
        r is Ok <==> url_parse_ok(base_url@),
        r matches Ok(u) ==> u@ == url_origin_prefix(base_url@) + "/runs/"@ + run_id@ + "/report"@,
        r matches Err(e) ==> e matches ApiError::InvalidParameters { .. },
{
    let prefix = url_prefix_through_port(base_url);
    match prefix {
        Some(mut u) => {
            u.append("/runs/");
            u.append(run_id);
            u.append("/report");
            assert(u@ =~= url_origin_prefix(base_url@) + "/runs/"@ + run_id@ + "/report"@);
            Ok(u)
        },
        None => Err(ApiError::InvalidParameters { error: base_url.to_owned() }),
    }
}

/// What `globset`'s matcher decides for this pattern and path.
pub uninterp spec fn glob_matches(pattern: Seq<char>, path: Seq<char>) -> bool;

/// Whether `globset` accepts this pattern.
pub uninterp spec fn glob_pattern_ok(pattern: Seq<char>) -> bool;

/// Relies on `globset::Glob::new` and `GlobMatcher::is_match`: a pattern is
/// accepted or rejected on its content alone, and the match result is a
/// function of pattern and path alone.
#[verifier::external_body]
fn glob_match(pattern: &str, path: &str) -> (r: Option<bool>)
    ensures
        r is Some <==> glob_pattern_ok(pattern@),
        r matches Some(b) ==> b == glob_matches(pattern@, path@),
{
    match globset::Glob::new(pattern) {
        Ok(glob) => Some(glob.compile_matcher().is_match(path)),
        Err(_) => None,
    }
}

/// An artifact id with the run prefix removed, as the glob sees it.
pub open spec fn spec_stripped_id(id: Seq<char>, prefix: Seq<char>) -> Seq<char> {
    if prefix.is_prefix_of(id) {
        id.skip(prefix.len() as int)
    } else {
        id
    }
}

/// The artifacts whose stripped id matches the pattern, in order.
pub open spec fn spec_glob_filtered(
    artifacts: Seq<Artifact>,
    pattern: Seq<char>,
    prefix: Seq<char>,
) -> Seq<Artifact>
    decreases artifacts.len(),
{
    if artifacts.len() == 0 {
        Seq::empty()
    } else {
        spec_glob_filtered(artifacts.drop_last(), pattern, prefix) + (if glob_matches(
            pattern,
            spec_stripped_id(artifacts.last().id@, prefix),
        ) {
            seq![artifacts.last()]
        } else {
            Seq::empty()
        })
    }
}

/// Keep only the artifacts whose path below the run matches the glob; with
/// no glob, keep everything. A pattern `globset` rejects is an error.
pub fn filter_artifact_list(artifacts: Vec<Artifact>, glob: Option<String>, prefix: &str) -> (r:
    Result<Vec<Artifact>, ArtifactError>)
    ensures
        glob is None ==> (r matches Ok(v) && v == artifacts),
        glob matches Some(pattern) ==> {
            &&& (r is Ok <==> glob_pattern_ok(pattern@))
            &&& (r matches Ok(v) ==> v@ == spec_glob_filtered(artifacts@, pattern@, prefix@))
            &&& (r matches Err(e) ==> e == (ArtifactError::InvalidGlobPattern { pattern }))
        },
{
    let pattern = match glob {
        None => {
            return Ok(artifacts);
        },
        Some(p) => p,
    };
    let probe = glob_match(pattern.as_str(), "");
    if probe.is_none() {
        return Err(ArtifactError::InvalidGlobPattern { pattern });
    }
    let mut kept: Vec<Artifact> = Vec::new();
    let n = artifacts.len();
    let mut i: usize = 0;
    assert(artifacts@.take(0) =~= Seq::<Artifact>::empty());
    while i < n
        invariant
            n == artifacts@.len(),
            i <= n,
            glob_pattern_ok(pattern@),
            kept@ == spec_glob_filtered(artifacts@.take(i as int), pattern@, prefix@),
        decreases n - i,
    {
        assert(artifacts@.take(i + 1).drop_last() =~= artifacts@.take(i as int));
        assert(artifacts@.take(i + 1).last() == artifacts@[i as int]);
        let stripped = if crate::strutil::starts_with(artifacts[i].id.as_str(), prefix) {
            let plen = prefix.unicode_len();
            let ilen = artifacts[i].id.as_str().unicode_len();
            artifacts[i].id.as_str().substring_char(plen, ilen).to_owned()
        } else {
            artifacts[i].id.clone()
        };
        assert(stripped@ == spec_stripped_id(artifacts@[i as int].id@, prefix@));
        let matched = glob_match(pattern.as_str(), stripped.as_str());
        match matched {
            Some(true) => {
                kept.push(artifacts[i].duplicate());
                assert(kept@ =~= spec_glob_filtered(artifacts@.take(i + 1), pattern@, prefix@));
            },
            Some(false) => {
                assert(kept@ =~= spec_glob_filtered(artifacts@.take(i + 1), pattern@, prefix@));
            },
            None => {
                assert(false);
            },
        }
        i = i + 1;
    }
    assert(artifacts@.take(n as int) =~= artifacts@);
    Ok(kept)
}

/// Retrieves the artifacts of a finished run.
pub struct DownloadArtifactsInteractor {}

/// Submits a run and follows it to its reported outcome.
pub struct TriggerTestRunInteractor {}

/// Prints the service's device catalog.
pub struct GetDeviceCatalogInteractor {}

/// Stages the artifact-download flow announces.
pub const DOWNLOAD_STAGE_COUNT: u32 = 4;

/// How many stages the trigger flow announces, depending on whether it
/// waits for the run and whether it fetches artifacts afterwards.
pub fn trigger_stage_count(wait: bool, has_output: bool) -> (r: u32)
    ensures
        wait && has_output ==> r == 5,
        wait && !has_output ==> r == 2,
        !wait ==> r == 1,
{
    if wait && has_output {
        5
    } else if wait {
        2
    } else {
        1
    }
}

/// The phases of one run's lifecycle.
#[derive(Debug, Clone, Copy, PartialEq, Eq, Structural)]
pub enum RunPhase {
    Created,
    Uploading,
    Submitted,
    Polling,
    Terminal,
    ArtifactsPending,
    ArtifactsDone,
    Reported,
}

/// One run's walk through its lifecycle: submission, optional polling to a
/// terminal status, optional artifact retrieval, and the reported outcome.
pub struct RunOrchestration {
    pub wait: bool,
    pub has_output: bool,
    pub ignore_test_failures: Option<bool>,
    pub phase: RunPhase,
    pub run_id: Option<String>,
    pub status: Option<TestRun>,
    pub success: Option<bool>,
}

impl RunOrchestration {
    /// What each phase guarantees about the collected values.
    pub open spec fn wf(self) -> bool {
        &&& match self.phase {
            RunPhase::Created | RunPhase::Uploading => self.run_id is None && self.status is None
                && self.success is None,
            RunPhase::Submitted => self.run_id is Some && self.status is None
                && self.success is None,
            RunPhase::Polling => self.run_id is Some && self.wait && self.status is None
                && self.success is None,
            RunPhase::Terminal | RunPhase::ArtifactsPending | RunPhase::ArtifactsDone => {
                &&& self.run_id is Some
                &&& self.wait
                &&& self.status matches Some(st) && st.completed is Some
                &&& self.success is None
            },
            RunPhase::Reported => self.success is Some,
        }
        &&& (self.phase is ArtifactsPending || self.phase is ArtifactsDone
            ==> self.has_output)
    }

    /// A fresh orchestration for a validated request.
    pub fn new(wait: bool, has_output: bool, ignore_test_failures: Option<bool>) -> (r:
        RunOrchestration)
        ensures
            r.wf(),
            r.phase is Created,
            r.wait == wait,
            r.has_output == has_output,
            r.ignore_test_failures == ignore_test_failures,
    {
        RunOrchestration {
            wait,
            has_output,
            ignore_test_failures,
            phase: RunPhase::Created,
            run_id: None,
            status: None,
            success: None,
        }
    }

    /// Uploads begin.
    pub fn begin_upload(&mut self)
        requires
            old(self).wf(),
            old(self).phase is Created,
        ensures
            final(self).wf(),
            final(self).phase is Uploading,
            *final(self) == (RunOrchestration { phase: RunPhase::Uploading, ..*old(self) }),
    {
        self.phase = RunPhase::Uploading;
    }

    /// Every upload finished and the submission returned this run id.
    pub fn submitted(&mut self, run_id: String)
        requires
            old(self).wf(),
            old(self).phase is Uploading,
        ensures
            final(self).wf(),
            final(self).phase is Submitted,
            *final(self) == (RunOrchestration {
                phase: RunPhase::Submitted,
                run_id: Some(run_id),
                ..*old(self)
            }),
    {
        self.run_id = Some(run_id);
        self.phase = RunPhase::Submitted;
    }

    /// Without waiting, the run is reported as started and the invocation
    /// succeeds.
    pub fn report_started(&mut self) -> (ev: crate::progress::TestRunStarted)
        requires
            old(self).wf(),
            old(self).phase is Submitted,
            !old(self).wait,
        ensures
            final(self).wf(),
            final(self).phase is Reported,
            final(self).success == Some(true),
            old(self).run_id matches Some(id) && ev.id == id,
            final(self).wait == old(self).wait,
            final(self).has_output == old(self).has_output,
    {
        self.phase = RunPhase::Reported;
        self.success = Some(true);
        let id = match &self.run_id {
            Some(id) => id.clone(),
            None => {
                assert(false);
                String::new()
            },
        };
        crate::progress::TestRunStarted { id }
    }

    /// The caller asked to wait: polling starts.
    pub fn begin_polling(&mut self)
        requires
            old(self).wf(),
            old(self).phase is Submitted,
            old(self).wait,
        ensures
            final(self).wf(),
            final(self).phase is Polling,
            *final(self) == (RunOrchestration { phase: RunPhase::Polling, ..*old(self) }),
    {
        self.phase = RunPhase::Polling;
    }

    /// One poll came back. A terminal status ends the wait and is kept;
    /// any other status leaves the orchestration polling.
    pub fn observe_status(&mut self, status: TestRun)
        requires
            old(self).wf(),
            old(self).phase is Polling,
        ensures
            final(self).wf(),
            status.completed is Some ==> *final(self) == (RunOrchestration {
                phase: RunPhase::Terminal,
                status: Some(status),
                ..*old(self)
            }),
            status.completed is None ==> *final(self) == *old(self),
    {
        if status.completed.is_some() {
            self.status = Some(status);
            self.phase = RunPhase::Terminal;
        }
    }

    /// An output directory was requested: artifact retrieval starts.
    pub fn begin_artifacts(&mut self)
        requires
            old(self).wf(),
            old(self).phase is Terminal,
            old(self).has_output,
        ensures
            final(self).wf(),
            final(self).phase is ArtifactsPending,
            *final(self) == (RunOrchestration { phase: RunPhase::ArtifactsPending, ..*old(self) }),
    {
        self.phase = RunPhase::ArtifactsPending;
    }

    /// Crawling and downloading finished.
    pub fn artifacts_done(&mut self)
        requires
            old(self).wf(),
            old(self).phase is ArtifactsPending,
        ensures
            final(self).wf(),
            final(self).phase is ArtifactsDone,
            *final(self) == (RunOrchestration { phase: RunPhase::ArtifactsDone, ..*old(self) }),
    {
        self.phase = RunPhase::ArtifactsDone;
    }

    /// Report the outcome of a waited-for run: success is decided by the
    /// terminal state and the ignore-test-failures flag alone.
    pub fn report(&mut self)
        requires
            old(self).wf(),
            old(self).phase is Terminal && !old(self).has_output || old(
                self,
            ).phase is ArtifactsDone,
        ensures
            final(self).wf(),
            final(self).phase is Reported,
            old(self).status matches Some(st) && final(self).success == Some(
                spec_exit_outcome(st.state@, old(self).ignore_test_failures),
            ),
            final(self).status == old(self).status,
            final(self).run_id == old(self).run_id,
    {
        let outcome = match &self.status {
            Some(st) => exit_outcome(st.state.as_str(), self.ignore_test_failures),
            None => {
                assert(false);
                true
            },
        };
        self.success = Some(outcome);
        self.phase = RunPhase::Reported;
    }

    /// The finished event for the kept terminal status, pointing at the
    /// given report page. A missing billable time counts as zero.
    pub fn finished_event(&self, report: String) -> (ev: crate::progress::TestRunFinished)
        requires
            self.status is Some,
        ensures
            self.status matches Some(st) && {
                &&& ev.id == st.id
                &&& ev.state == st.state
                &&& ev.report == report
                &&& ev.passed == st.passed
                &&& ev.failed == st.failed
                &&& ev.ignored == st.ignored
                &&& ev.billable_time_millis == (match st.total_run_time_millis {
                    Some(m) => m,
                    None => 0u64,
                })
            },
    {
        match &self.status {
            Some(st) => crate::progress::TestRunFinished {
                id: st.id.clone(),
                report,
                state: st.state.clone(),
                passed: st.passed,
                failed: st.failed,
                ignored: st.ignored,
                billable_time_millis: match st.total_run_time_millis {
                    Some(m) => m,
                    None => 0,
                },
            },
            None => {
                assert(false);
                crate::progress::TestRunFinished {
                    id: String::new(),
                    report,
                    state: String::new(),
                    passed: None,
                    failed: None,
                    ignored: None,
                    billable_time_millis: 0,
                }
            },
        }
    }
}

/// The formats a result file may use.
#[derive(Debug, Clone, Copy, PartialEq, Eq, Structural)]
pub enum ResultFileFormat {
    Json,
    Yaml,
}

/// Which format a result-file path asks for, by its extension: `json` for
/// JSON, `yaml` or `yml` for YAML; any other extension is refused, and so
/// is a path without one.
pub fn result_file_format(path: &str) -> (r: Result<ResultFileFormat, InputError>)
    ensures
        r is Ok <==> (crate::strutil::spec_extension(path@) matches Some(e) && (e == "json"@ || e
            == "yaml"@ || e == "yml"@)),
        r matches Ok(f) ==> (crate::strutil::spec_extension(path@) matches Some(e) && (f is Json
            <==> e == "json"@) && (f is Yaml <==> (e == "yaml"@ || e == "yml"@))),
        r matches Err(InputError::NonUTF8Path { path: p }) ==> crate::strutil::spec_extension(
            path@,
        ) is None && p@ == path@,
        r matches Err(InputError::InvalidFileExtension { extension, supported }) ==> (
        crate::strutil::spec_extension(path@) matches Some(e) && extension@ == e && e != "json"@
            && e != "yaml"@ && e != "yml"@ && supported@ == "json,yaml,yml"@),
{
    proof {
        reveal_strlit("json");
        reveal_strlit("yaml");
        reveal_strlit("yml");
        assert("json"@.len() == 4 && "yaml"@.len() == 4 && "yml"@.len() == 3);
        assert("json"@[0] == 'j' && "yaml"@[0] == 'y');
        assert("json"@ != "yaml"@ && "json"@ != "yml"@ && "yaml"@ != "yml"@);
    }
    let ext = crate::strutil::extension_of(path);
    match ext {
        None => Err(InputError::NonUTF8Path { path: path.to_owned() }),
        Some(e) => {
            if str_eq(e.as_str(), "json") {
                Ok(ResultFileFormat::Json)
            } else if str_eq(e.as_str(), "yaml") || str_eq(e.as_str(), "yml") {
                Ok(ResultFileFormat::Yaml)
            } else {
                Err(
                    InputError::InvalidFileExtension {
                        extension: e,
                        supported: String::from_str("json,yaml,yml"),
                    },
                )
            }
        },
    }
}

} // verus!
