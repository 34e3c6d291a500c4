use marathon_cloud::api::Artifact;
use marathon_cloud::artifacts::artifact_relative_path;
use marathon_cloud::artifacts::crawl_tree;
use marathon_cloud::artifacts::local_download_path;
use marathon_cloud::artifacts::patch_attachment_source;
use marathon_cloud::artifacts::run_with_retries;
use marathon_cloud::artifacts::ArtifactTreeNode;
use marathon_cloud::artifacts::CrawlState;
use marathon_cloud::artifacts::DownloadDispatcher;
use marathon_cloud::artifacts::DownloadOutcome;
use marathon_cloud::artifacts::DownloadReport;
use marathon_cloud::artifacts::MAX_DOWNLOAD_ATTEMPTS;
use marathon_cloud::errors::ArtifactError;

fn file(id: &str) -> Artifact {
    Artifact {
        id: id.to_string(),
        name: id.to_string(),
        is_file: true,
    }
}

fn dir(id: &str) -> Artifact {
    Artifact {
        id: id.to_string(),
        name: id.to_string(),
        is_file: false,
    }
}

fn leaf(id: &str) -> ArtifactTreeNode {
    ArtifactTreeNode::File { artifact: file(id) }
}

fn ids(mut artifacts: Vec<Artifact>) -> Vec<String> {
    let mut r: Vec<String> = artifacts.drain(..).map(|a| a.id).collect();
    r.sort();
    r
}

#[test]
fn test_crawl_zero_depth_tree_returns_all_files() {
    let root = ArtifactTreeNode::Dir {
        id: "R1".to_string(),
        children: vec![leaf("R1/a.txt"), leaf("R1/b.txt"), leaf("R1/c.txt")],
    };
    let found = crawl_tree(root);
    assert_eq!(
        ids(found),
        vec![
            "R1/a.txt".to_string(),
            "R1/b.txt".to_string(),
            "R1/c.txt".to_string()
        ]
    );
}

#[test]
fn test_crawl_deep_tree_returns_exactly_the_leaves() {
    let root = ArtifactTreeNode::Dir {
        id: "R1".to_string(),
        children: vec![
            ArtifactTreeNode::Dir {
                id: "R1/logs".to_string(),
                children: vec![
                    leaf("R1/logs/a.txt"),
                    ArtifactTreeNode::Dir {
                        id: "R1/logs/inner".to_string(),
                        children: vec![leaf("R1/logs/inner/deep.txt")],
                    },
                ],
            },
            ArtifactTreeNode::Dir {
                id: "R1/empty".to_string(),
                children: vec![],
            },
            leaf("R1/top.txt"),
        ],
    };
    let found = crawl_tree(root);
    assert_eq!(
        ids(found),
        vec![
            "R1/logs/a.txt".to_string(),
            "R1/logs/inner/deep.txt".to_string(),
            "R1/top.txt".to_string()
        ]
    );
}

#[test]
fn test_crawl_single_file_root() {
    let found = crawl_tree(leaf("R1/only.txt"));
    assert_eq!(ids(found), vec!["R1/only.txt".to_string()]);
}

#[test]
fn test_crawl_rounds_partition_files_and_directories() {
    let mut crawl = CrawlState::begin("R1".to_string());
    assert!(!crawl.is_done());

    let listing = vec![Ok(vec![file("R1/a.txt"), dir("R1/logs"), file("R1/b.txt")])];
    assert!(crawl.round(listing).is_ok());
    assert_eq!(crawl.frontier, vec!["R1/logs".to_string()]);

    let listing = vec![Ok(vec![file("R1/logs/c.txt")])];
    assert!(crawl.round(listing).is_ok());
    assert!(crawl.is_done());

    let found = crawl.finish();
    assert_eq!(
        ids(found),
        vec![
            "R1/a.txt".to_string(),
            "R1/b.txt".to_string(),
            "R1/logs/c.txt".to_string()
        ]
    );
}

#[test]
fn test_crawl_round_fails_fast_and_keeps_no_partial_list() {
    let mut crawl = CrawlState::begin("R1".to_string());
    let listing = vec![Ok(vec![file("R1/a.txt"), dir("R1/logs")])];
    assert!(crawl.round(listing).is_ok());

    let batch: Vec<Result<Vec<Artifact>, String>> =
        vec![Err("connection reset".to_string())];
    let r = crawl.round(batch);
    assert_eq!(
        r,
        Err(ArtifactError::ListFailed {
            error: "connection reset".to_string()
        })
    );
    assert_eq!(crawl.frontier, vec!["R1/logs".to_string()]);
    assert_eq!(ids(crawl.files.clone()), vec!["R1/a.txt".to_string()]);
}

#[test]
fn test_relative_path_strips_run_prefix() {
    assert_eq!(
        artifact_relative_path("R1", "R1/logs/a.txt"),
        "logs/a.txt".to_string()
    );
}

#[test]
fn test_relative_path_without_prefix_strips_leading_slash() {
    assert_eq!(artifact_relative_path("R1", "/other/b.txt"), "other/b.txt".to_string());
    assert_eq!(artifact_relative_path("R1", "other/b.txt"), "other/b.txt".to_string());
}

#[test]
fn test_local_download_path_joins_output_dir() {
    assert_eq!(
        local_download_path("out", "R1", "R1/logs/a.txt"),
        Some("out/logs/a.txt".to_string())
    );
}

#[test]
fn test_local_download_path_rejects_escapes() {
    assert_eq!(local_download_path("out", "R1", "R1/../secret"), None);
    assert_eq!(local_download_path("out", "R1", "R1/"), None);
    assert_eq!(local_download_path("out", "R1", "R1/logs/..warm.txt").is_some(), true);
}

#[test]
fn test_retry_succeeds_on_third_attempt_and_counts_once() {
    assert_eq!(MAX_DOWNLOAD_ATTEMPTS, 3);
    let outcome = run_with_retries(&vec![false, false, true]);
    assert_eq!(outcome, DownloadOutcome::Completed { attempts: 3 });

    let mut report = DownloadReport::new();
    report.record("R1/a.txt".to_string(), &outcome);
    assert_eq!(report.completed, 1);
    assert_eq!(report.failed.len(), 0);
}

#[test]
fn test_retry_exhaustion_is_reported_not_dropped() {
    let outcome = run_with_retries(&vec![false, false, false, true]);
    assert_eq!(outcome, DownloadOutcome::Failed);

    let mut report = DownloadReport::new();
    report.record("R1/a.txt".to_string(), &outcome);
    assert_eq!(report.completed, 0);
    assert_eq!(report.failed, vec!["R1/a.txt".to_string()]);
}

#[test]
fn test_dispatcher_never_exceeds_limit() {
    let total = 5;
    let limit = 2;
    let mut d = DownloadDispatcher::new(total, limit);
    let mut max_in_flight = 0;
    let mut in_flight = 0;
    while !d.all_done() {
        if d.can_start() {
            d.start();
            in_flight += 1;
        } else {
            d.complete();
            in_flight -= 1;
        }
        if in_flight > max_in_flight {
            max_in_flight = in_flight;
        }
        assert!(in_flight <= limit);
    }
    assert_eq!(max_in_flight, limit);
    assert_eq!(d.done, total);
}

#[test]
fn test_dispatcher_blocks_at_limit() {
    let mut d = DownloadDispatcher::new(3, 1);
    assert!(d.can_start());
    d.start();
    assert!(!d.can_start());
    d.complete();
    assert!(d.can_start());
}

#[test]
fn test_patch_attachment_source_redirects_logs_and_video() {
    assert_eq!(
        patch_attachment_source("attachments/logs/omni/device.log"),
        Some("../../logs/omni/device.log".to_string())
    );
    assert_eq!(
        patch_attachment_source("x/video/omni/run.mp4"),
        Some("../../video/omni/run.mp4".to_string())
    );
    assert_eq!(patch_attachment_source("attachments/screenshot.png"), None);
}
