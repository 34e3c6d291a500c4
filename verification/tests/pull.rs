use marathon_cloud::errors::PullArgError;
use marathon_cloud::pull::parse_pull_args;
use marathon_cloud::pull::PullFileItem;

#[test]
fn test_valid_pull_args() {
    let pull_args = vec![
        "EXTERNAL_STORAGE:my-device-folder1".to_string(),
        "APP_DATA:my-device-folder2/some_file.txt".to_string(),
    ];
    let result = parse_pull_args(pull_args);

    assert!(result.is_ok());
    let pull_file_config = result.unwrap();
    let pulls = pull_file_config.pull_items;
    assert_eq!(pulls.len(), 2);

    assert_eq!(
        pulls[0],
        PullFileItem {
            relative_path: "my-device-folder1".to_string(),
            aggregation_mode: "TEST_RUN".to_string(),
            path_root: "EXTERNAL_STORAGE".to_string(),
        }
    );

    assert_eq!(
        pulls[1],
        PullFileItem {
            relative_path: "my-device-folder2/some_file.txt".to_string(),
            aggregation_mode: "TEST_RUN".to_string(),
            path_root: "APP_DATA".to_string(),
        }
    );
}

#[test]
fn test_invalid_format_pull_arg() {
    let pull_args = vec![
        "EXTERNAL_STORAGE:my-device-folder1".to_string(),
        "INVALID_FORMAT".to_string(),
    ];
    let result = parse_pull_args(pull_args);

    assert!(result.is_err());
    let error = result.unwrap_err();
    assert_eq!(
        error,
        PullArgError::InvalidFormat {
            arg: "INVALID_FORMAT".to_string()
        }
    );
}

#[test]
fn test_invalid_root_type_pull_arg() {
    let pull_args = vec![
        "EXTERNAL_STORAGE:my-device-folder1".to_string(),
        "UNKNOWN:my-device-folder2".to_string(),
    ];
    let result = parse_pull_args(pull_args);

    assert!(result.is_err());
    let error = result.unwrap_err();
    assert_eq!(
        error,
        PullArgError::InvalidRootType {
            used_type: "UNKNOWN".to_string()
        }
    );
}

#[test]
fn test_empty_pull_args() {
    let pull_args: Vec<String> = Vec::new();
    let result = parse_pull_args(pull_args);

    assert!(result.is_ok());
    let pull_file_config = result.unwrap();
    let pulls = pull_file_config.pull_items;
    assert_eq!(pulls.len(), 0);
}

#[test]
fn test_pull_arg_with_two_colons_is_invalid() {
    let result = parse_pull_args(vec!["APP_DATA:a:b".to_string()]);
    assert_eq!(
        result.unwrap_err(),
        PullArgError::InvalidFormat {
            arg: "APP_DATA:a:b".to_string()
        }
    );
}
