use marathon_cloud::api::Artifact;
use marathon_cloud::api::TestRun;
use marathon_cloud::artifacts::run_with_retries;
use marathon_cloud::artifacts::CrawlState;
use marathon_cloud::artifacts::DownloadDispatcher;
use marathon_cloud::artifacts::DownloadOutcome;
use marathon_cloud::artifacts::DownloadReport;
use marathon_cloud::errors::ArtifactError;
use marathon_cloud::errors::InputError;
use marathon_cloud::interactor::await_terminal;
use marathon_cloud::interactor::exit_code;
use marathon_cloud::interactor::exit_outcome;
use marathon_cloud::interactor::filter_artifact_list;
use marathon_cloud::interactor::is_terminal;
use marathon_cloud::interactor::report_url;
use marathon_cloud::interactor::result_file_format;
use marathon_cloud::interactor::trigger_stage_count;
use marathon_cloud::interactor::ResultFileFormat;
use marathon_cloud::interactor::RunOrchestration;
use marathon_cloud::interactor::RunPhase;
use marathon_cloud::interactor::POLL_INTERVAL_SECONDS;

fn status(state: &str, completed: Option<u64>) -> TestRun {
    TestRun {
        id: "R1".to_string(),
        state: state.to_string(),
        passed: None,
        failed: None,
        ignored: None,
        completed,
        total_run_time_millis: None,
        error_message: None,
    }
}

fn file(id: &str) -> Artifact {
    Artifact {
        id: id.to_string(),
        name: id.to_string(),
        is_file: true,
    }
}

#[test]
fn test_await_terminal_returns_first_terminal_after_three_polls() {
    let polls = vec![
        status("running", None),
        status("running", None),
        status("passed", Some(1700000000)),
    ];
    let (terminal, poll_calls) = await_terminal(&polls).unwrap();
    assert_eq!(poll_calls, 3);
    assert_eq!(terminal.state, "passed".to_string());
    assert_eq!(terminal.completed, Some(1700000000));
    assert_eq!(POLL_INTERVAL_SECONDS, 5);
}

#[test]
fn test_await_terminal_without_terminal_status_keeps_waiting() {
    let polls = vec![status("queued", None), status("running", None)];
    assert!(await_terminal(&polls).is_none());
    assert!(!is_terminal(&status("running", None)));
    assert!(is_terminal(&status("error", Some(5))));
}

#[test]
fn test_exit_outcome_failure_not_ignored_fails() {
    assert_eq!(exit_outcome("failure", None), false);
    assert_eq!(exit_outcome("failure", Some(false)), false);
}

#[test]
fn test_exit_outcome_failure_ignored_succeeds() {
    assert_eq!(exit_outcome("failure", Some(true)), true);
}

#[test]
fn test_exit_outcome_passed_succeeds_regardless_of_flag() {
    assert_eq!(exit_outcome("passed", None), true);
    assert_eq!(exit_outcome("passed", Some(false)), true);
    assert_eq!(exit_outcome("passed", Some(true)), true);
    assert_eq!(exit_code(true), 0);
    assert_eq!(exit_code(false), 1);
}

#[test]
fn test_report_url_cuts_base_back_to_origin() {
    let url = report_url("https://cloud.example.com/api", "R1").unwrap();
    assert_eq!(url, "https://cloud.example.com/runs/R1/report".to_string());
}

#[test]
fn test_report_url_keeps_port_and_rejects_garbage() {
    let url = report_url("http://localhost:8080/api/v1", "xyz").unwrap();
    assert_eq!(url, "http://localhost:8080/runs/xyz/report".to_string());
    assert!(report_url("not a url", "R1").is_err());
}

#[test]
fn test_filter_artifact_list_without_glob_keeps_everything() {
    let artifacts = vec![file("R1/a.txt"), file("R1/logs/b.txt")];
    let kept = filter_artifact_list(artifacts.clone(), None, "R1/").unwrap();
    assert_eq!(kept, artifacts);
}

#[test]
fn test_filter_artifact_list_applies_glob_to_stripped_ids() {
    let artifacts = vec![
        file("R1/tests/junit.xml"),
        file("R1/logs/device.log"),
        file("R1/tests/report.xml"),
    ];
    let kept = filter_artifact_list(artifacts, Some("tests/**".to_string()), "R1/").unwrap();
    let ids: Vec<String> = kept.into_iter().map(|a| a.id).collect();
    assert_eq!(
        ids,
        vec!["R1/tests/junit.xml".to_string(), "R1/tests/report.xml".to_string()]
    );
}

#[test]
fn test_filter_artifact_list_rejects_bad_pattern() {
    let r = filter_artifact_list(vec![file("R1/a")], Some("a{b".to_string()), "R1/");
    assert_eq!(
        r,
        Err(ArtifactError::InvalidGlobPattern {
            pattern: "a{b".to_string()
        })
    );
}

#[test]
fn test_result_file_format_by_extension() {
    assert_eq!(result_file_format("out/result.json"), Ok(ResultFileFormat::Json));
    assert_eq!(result_file_format("result.yaml"), Ok(ResultFileFormat::Yaml));
    assert_eq!(result_file_format("result.yml"), Ok(ResultFileFormat::Yaml));
    assert_eq!(
        result_file_format("result.txt"),
        Err(InputError::InvalidFileExtension {
            extension: "txt".to_string(),
            supported: "json,yaml,yml".to_string()
        })
    );
    assert!(matches!(
        result_file_format("noextension"),
        Err(InputError::NonUTF8Path { .. })
    ));
}

#[test]
fn test_trigger_stage_counts() {
    assert_eq!(trigger_stage_count(true, true), 5);
    assert_eq!(trigger_stage_count(true, false), 2);
    assert_eq!(trigger_stage_count(false, true), 1);
    assert_eq!(trigger_stage_count(false, false), 1);
}

#[test]
fn test_run_without_wait_reports_started() {
    let mut run = RunOrchestration::new(false, false, None);
    run.begin_upload();
    run.submitted("R1".to_string());
    let event = run.report_started();
    assert_eq!(event.id, "R1".to_string());
    assert_eq!(run.phase, RunPhase::Reported);
    assert_eq!(run.success, Some(true));
}

#[test]
fn test_full_run_lifecycle_ends_in_success() {
    // Submit one application + test-application bundle, poll to `passed`
    // after two in-progress polls, discover five files, download them all,
    // and end with a successful exit.
    let mut run = RunOrchestration::new(true, true, None);
    run.begin_upload();
    run.submitted("R1".to_string());
    run.begin_polling();

    let mut polls = vec![status("running", None), status("running", None)];
    let mut terminal = status("passed", Some(1700000000));
    terminal.passed = Some(10);
    terminal.failed = Some(0);
    terminal.total_run_time_millis = Some(90_500);
    polls.push(terminal);

    let (final_status, poll_calls) = await_terminal(&polls).unwrap();
    assert_eq!(poll_calls, 3);
    run.observe_status(polls[0].clone());
    assert_eq!(run.phase, RunPhase::Polling);
    run.observe_status(polls[1].clone());
    assert_eq!(run.phase, RunPhase::Polling);
    run.observe_status(final_status);
    assert_eq!(run.phase, RunPhase::Terminal);

    run.begin_artifacts();
    let mut crawl = CrawlState::begin("R1".to_string());
    let round = vec![Ok(vec![
        file("R1/a.xml"),
        file("R1/b.xml"),
        file("R1/c.log"),
        file("R1/d.log"),
        file("R1/e.png"),
    ])];
    assert!(crawl.round(round).is_ok());
    assert!(crawl.is_done());
    let files = crawl.finish();
    assert_eq!(files.len(), 5);

    let mut dispatcher = DownloadDispatcher::new(files.len(), 2);
    let mut report = DownloadReport::new();
    let mut queue: Vec<String> = files.iter().map(|f| f.id.clone()).collect();
    let mut in_flight: Vec<String> = Vec::new();
    while !dispatcher.all_done() {
        if dispatcher.can_start() {
            dispatcher.start();
            in_flight.push(queue.remove(0));
            assert!(in_flight.len() <= 2);
        } else {
            let id = in_flight.remove(0);
            let outcome = run_with_retries(&vec![true, true, true]);
            assert_eq!(outcome, DownloadOutcome::Completed { attempts: 1 });
            report.record(id, &outcome);
            dispatcher.complete();
        }
    }
    assert_eq!(report.completed, 5);
    assert_eq!(report.failed.len(), 0);

    run.artifacts_done();
    run.report();
    assert_eq!(run.phase, RunPhase::Reported);
    assert_eq!(run.success, Some(true));

    let report_page = report_url("https://cloud.example.com/api", "R1").unwrap();
    let event = run.finished_event(report_page);
    assert_eq!(event.state, "passed".to_string());
    assert_eq!(event.passed, Some(10));
    assert_eq!(event.failed, Some(0));
    assert_eq!(exit_code(run.success.unwrap()), 0);
}
