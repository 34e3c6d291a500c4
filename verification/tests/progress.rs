use marathon_cloud::artifacts::crawl_tree;
use marathon_cloud::artifacts::ArtifactTreeNode;
use marathon_cloud::api::Artifact;
use marathon_cloud::formatter::Formatter;
use marathon_cloud::formatter::StandardFormatter;
use marathon_cloud::hash::md5_hex;
use marathon_cloud::hash::to_hex_lower;
use marathon_cloud::progress::TestRunFinished;
use marathon_cloud::progress::TestRunStarted;
use marathon_cloud::strutil::trim;
use marathon_cloud::strutil::u64_to_string;

#[test]
fn test_started_message() {
    let event = TestRunStarted {
        id: "R1".to_string(),
    };
    assert_eq!(event.message(), "Test run R1 started".to_string());
}

#[test]
fn test_finished_message_passed_with_counts() {
    let event = TestRunFinished {
        id: "R1".to_string(),
        report: "https://cloud.example.com/runs/R1/report".to_string(),
        state: "passed".to_string(),
        passed: Some(10),
        failed: Some(0),
        ignored: None,
        billable_time_millis: 3_723_456,
    };
    let expected = "Marathon Cloud execution finished\n\
                    \tstate: passed\n\
                    \treport: https://cloud.example.com/runs/R1/report\n\
                    \tpassed: 10\n\
                    \tfailed: 0\n\
                    \tignored: missing\n\
                    \tbillable time: 01:02:03.456\n";
    assert_eq!(event.message(), expected.to_string());
}

#[test]
fn test_finished_message_failure_headline() {
    let event = TestRunFinished {
        id: "R1".to_string(),
        report: "r".to_string(),
        state: "failure".to_string(),
        passed: None,
        failed: None,
        ignored: None,
        billable_time_millis: 0,
    };
    let message = event.message();
    assert!(message.starts_with("Marathon Cloud execution finished with failures\n"));
    assert!(message.ends_with("\tbillable time: 00:00:00.000\n"));
}

#[test]
fn test_formatter_stage_prefix() {
    let formatter = StandardFormatter::new(4);
    assert_eq!(formatter.stage_line("Submitting new run..."), "[1/4] Submitting new run...");
    assert_eq!(formatter.stage("Fetching file list..."), "[1/4] Fetching file list...");
    assert_eq!(formatter.message("done"), "done".to_string());
}

#[test]
fn test_u64_rendering() {
    assert_eq!(u64_to_string(0), "0".to_string());
    assert_eq!(u64_to_string(907), "907".to_string());
}

#[test]
fn test_trim_strips_ascii_whitespace() {
    assert_eq!(trim("  a b \t"), "a b".to_string());
    assert_eq!(trim("\r\n"), "".to_string());
}

#[test]
fn test_hex_rendering() {
    assert_eq!(to_hex_lower(&vec![0xbe, 0xef, 0x00]), "beef00".to_string());
}

#[test]
fn test_md5_hex_of_known_input() {
    // The well-known digest of "abc"; fails if the digest step handed its
    // input back unchanged.
    let data: Vec<u8> = vec![b'a', b'b', b'c'];
    assert_eq!(md5_hex(&data), "900150983cd24fb0d6963f7d28e17f72".to_string());
}

#[test]
fn test_channel_error_message() {
    assert_eq!(
        marathon_cloud::io::channel_error("SendError(..)"),
        "EOF reached but was unable to send hash: SendError(..)".to_string()
    );
}

#[test]
fn test_crawl_keeps_duplicate_leaves_from_distinct_directories() {
    let twice = ArtifactTreeNode::Dir {
        id: "R1".to_string(),
        children: vec![
            ArtifactTreeNode::File {
                artifact: Artifact {
                    id: "R1/a".to_string(),
                    name: "a".to_string(),
                    is_file: true,
                },
            },
            ArtifactTreeNode::File {
                artifact: Artifact {
                    id: "R1/a".to_string(),
                    name: "a".to_string(),
                    is_file: true,
                },
            },
        ],
    };
    assert_eq!(crawl_tree(twice).len(), 2);
}
