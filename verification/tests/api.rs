use std::collections::HashMap;

use marathon_cloud::api::api_error_for_status;
use marathon_cloud::api::assemble_bundles;
use marathon_cloud::api::build_create_run_request;
use marathon_cloud::api::parse_env_arg;
use marathon_cloud::api::sanitize_base_url;
use marathon_cloud::api::vec_to_hashmap;
use marathon_cloud::api::CreateRunBundle;
use marathon_cloud::api::UploadProgress;
use marathon_cloud::errors::ApiError;
use marathon_cloud::errors::EnvArgError;

#[test]
fn test_vec_to_hashmap_valid_input() {
    let input = Some(vec![
        "KEY1=VALUE1".to_string(),
        "KEY2=VALUE2".to_string(),
        "KEY3=VALUE3".to_string(),
    ]);
    let mut expected = HashMap::new();
    expected.insert("KEY1".to_string(), "VALUE1".to_string());
    expected.insert("KEY2".to_string(), "VALUE2".to_string());
    expected.insert("KEY3".to_string(), "VALUE3".to_string());

    let result = vec_to_hashmap(input);

    assert_eq!(result, Ok(Some(expected)));
}

#[test]
fn test_vec_to_hashmap_missing_value() {
    let input = Some(vec!["KEY1=VALUE1".to_string(), "KEY2=".to_string()]);

    let result = vec_to_hashmap(input);

    assert_eq!(
        result,
        Err(EnvArgError::MissingValue {
            env_arg: "KEY2=".to_string()
        })
    );
}

#[test]
fn test_vec_to_hashmap_invalid_key_value() {
    let input = Some(vec!["KEY1=VALUE1".to_string(), "KEY2".to_string()]);

    let result = vec_to_hashmap(input);

    assert_eq!(
        result,
        Err(EnvArgError::InvalidKeyValue {
            env_arg: "KEY2".to_string()
        })
    );
}

#[test]
fn test_vec_to_hashmap_none_input() {
    let input = None;

    let result = vec_to_hashmap(input);

    assert_eq!(result, Ok(None));
}

#[test]
fn test_vec_to_hashmap_empty_vector() {
    let input = Some(vec![]);

    let result = vec_to_hashmap(input);

    assert_eq!(result, Ok(Some(HashMap::new())));
}

#[test]
fn test_parse_env_arg_splits_at_first_equals() {
    let arg = "KEY=a=b".to_string();
    let result = parse_env_arg(&arg);
    assert_eq!(result, Ok(("KEY".to_string(), "a=b".to_string())));
}

#[test]
fn test_sanitize_base_url_strips_one_trailing_slash() {
    assert_eq!(
        sanitize_base_url("https://cloud.example.com/api/"),
        "https://cloud.example.com/api".to_string()
    );
    assert_eq!(
        sanitize_base_url("https://cloud.example.com/api"),
        "https://cloud.example.com/api".to_string()
    );
}

#[test]
fn test_api_error_for_status_auth_codes() {
    let r = api_error_for_status(401, "unauthorized".to_string(), "".to_string());
    assert!(matches!(r, Some(ApiError::InvalidAuthenticationToken { .. })));
    let r = api_error_for_status(403, "forbidden".to_string(), "".to_string());
    assert!(matches!(r, Some(ApiError::InvalidAuthenticationToken { .. })));
}

#[test]
fn test_api_error_for_status_other_codes() {
    let r = api_error_for_status(500, "server".to_string(), "boom".to_string());
    assert_eq!(
        r,
        Some(ApiError::RequestFailedWithCode {
            status_code: 500,
            error: "server".to_string(),
            body: "boom".to_string(),
        })
    );
    assert_eq!(api_error_for_status(200, "ok".to_string(), "".to_string()), None);
}

#[test]
fn test_assemble_bundles_orders_application_before_library() {
    let apps = vec![("s3/app1".to_string(), "s3/test1".to_string())];
    let libs = vec!["s3/lib-test".to_string()];
    let bundles = assemble_bundles(&apps, &libs);
    assert_eq!(
        bundles,
        vec![
            CreateRunBundle {
                s3_test_app_path: "s3/test1".to_string(),
                s3_app_path: Some("s3/app1".to_string()),
            },
            CreateRunBundle {
                s3_test_app_path: "s3/lib-test".to_string(),
                s3_app_path: None,
            },
        ]
    );
}

#[test]
fn test_build_create_run_request_carries_fields() {
    let req = build_create_run_request(
        "Android".to_string(),
        Some("s3/app".to_string()),
        Some("s3/test".to_string()),
        Some("run name".to_string()),
        None,
        None,
        Some("14".to_string()),
        None,
        None,
        None,
        Some(true),
        None,
        Some(1),
        Some(2),
        Some(3),
        None,
        None,
        None,
        None,
        Some(vec!["FOO=BAR".to_string()]),
        None,
        None,
        Some(4),
        None,
        None,
        None,
        &vec![],
        &vec![],
    )
    .unwrap();
    assert_eq!(req.platform, "Android".to_string());
    assert_eq!(req.s3_app_path, Some("s3/app".to_string()));
    assert_eq!(req.os_version, Some("14".to_string()));
    assert_eq!(req.concurrency_limit, Some(4));
    assert_eq!(
        req.env_args,
        Some(vec![("FOO".to_string(), "BAR".to_string())])
    );
    assert_eq!(req.bundles, None);
    assert_eq!(req.country, None);
}

#[test]
fn test_build_create_run_request_rejects_bad_env_arg() {
    let r = build_create_run_request(
        "Android".to_string(),
        None,
        None,
        None,
        None,
        None,
        None,
        None,
        None,
        None,
        None,
        None,
        None,
        None,
        None,
        None,
        None,
        None,
        None,
        Some(vec!["NOEQUALS".to_string()]),
        None,
        None,
        None,
        None,
        None,
        None,
        &vec![],
        &vec![],
    );
    assert_eq!(
        r,
        Err(EnvArgError::InvalidKeyValue {
            env_arg: "NOEQUALS".to_string()
        })
    );
}

#[test]
fn test_upload_progress_clamps_at_total() {
    let mut p = UploadProgress::new(10);
    p.on_chunk(4);
    assert_eq!(p.sent, 4);
    assert!(!p.finished());
    p.on_chunk(8);
    assert_eq!(p.sent, 10);
    assert!(p.finished());
}
