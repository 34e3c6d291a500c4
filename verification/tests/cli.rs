use marathon_cloud::bundle::transform;
use marathon_cloud::cli::android;
use marathon_cloud::cli::ios::get_allowed_permissions;
use marathon_cloud::cli::ios::get_supported_configs;
use marathon_cloud::cli::ios::infer_parameters;
use marathon_cloud::cli::ios::validate_granted_permissions;
use marathon_cloud::cli::ios::IosDevice;
use marathon_cloud::cli::ios::OsVersion;
use marathon_cloud::cli::ios::XcodeVersion;
use marathon_cloud::cli::maestro::validate_flow;
use marathon_cloud::cli::model::LocalFileReference;
use marathon_cloud::cli::model::Platform;
use marathon_cloud::cli::validate::classify_bundle_format;
use marathon_cloud::cli::validate::ensure_distinct_bundle;
use marathon_cloud::cli::validate::ensure_positive;
use marathon_cloud::cli::validate::result_file_args;
use marathon_cloud::cli::validate::retry_args;
use marathon_cloud::cli::validate::BundleFormat;
use marathon_cloud::cli::RetryArgs;
use marathon_cloud::errors::InputError;

#[test]
fn test_infer_parameters_device_and_xcode_version_provided() {
    let provided_device = Some(IosDevice::IPhone15);
    let provided_xcode_version = Some(XcodeVersion::Xcode15_4);
    let expected_os_version = OsVersion::Ios17_5;

    let (inferred_device, inferred_xcode_version, inferred_os_version) =
        infer_parameters(provided_device, provided_xcode_version, None).unwrap();

    assert_eq!(inferred_device, IosDevice::IPhone15);
    assert_eq!(inferred_xcode_version, XcodeVersion::Xcode15_4);
    assert_eq!(inferred_os_version, expected_os_version);
}

#[test]
fn test_infer_parameters_ambiguous_xcode_version_should_error() {
    let provided_xcode_version = Some(XcodeVersion::Xcode15_4);

    let result = infer_parameters(None, provided_xcode_version, None);
    assert!(result.is_err());
}

#[test]
fn test_infer_parameters_complete_input_valid() {
    let provided_device = Some(IosDevice::IPhone15);
    let provided_xcode_version = Some(XcodeVersion::Xcode15_4);
    let provided_os_version = Some(OsVersion::Ios17_5);

    let (inferred_device, inferred_xcode_version, inferred_os_version) =
        infer_parameters(provided_device, provided_xcode_version, provided_os_version).unwrap();

    assert_eq!(inferred_device, IosDevice::IPhone15);
    assert_eq!(inferred_xcode_version, XcodeVersion::Xcode15_4);
    assert_eq!(inferred_os_version, OsVersion::Ios17_5);
}

#[test]
fn test_infer_parameters_invalid_device_and_xcode_combination_should_error() {
    let provided_os_version = Some(OsVersion::Ios17_5);
    let provided_xcode_version = Some(XcodeVersion::Xcode15_4);

    let result = infer_parameters(None, provided_xcode_version, provided_os_version);
    assert!(result.is_err());
}

#[test]
fn test_infer_parameters_valid_for_iphone_16_and_os_version_18_4() {
    let provided_device = Some(IosDevice::IPhone16);
    let provided_os_version = Some(OsVersion::Ios18_4);

    let (inferred_device, inferred_xcode_version, inferred_os_version) =
        infer_parameters(provided_device, None, provided_os_version).unwrap();

    assert_eq!(inferred_device, IosDevice::IPhone16);
    assert_eq!(inferred_xcode_version, XcodeVersion::Xcode16_3);
    assert_eq!(inferred_os_version, OsVersion::Ios18_4);
}

#[test]
fn test_infer_parameters_device_provided() {
    let provided_device = Some(marathon_cloud::ios::IosDevice::IPhone14);
    let expected_xcode_version = Some(marathon_cloud::ios::XcodeVersion::Xcode14_3_1);
    let expected_os_version = Some(marathon_cloud::ios::OsVersion::Ios16_4);

    let (inferred_device, inferred_xcode_version, inferred_os_version) =
        marathon_cloud::ios::infer_parameters(provided_device, None, None);

    assert_eq!(inferred_device, Some(marathon_cloud::ios::IosDevice::IPhone14));
    assert_eq!(inferred_xcode_version, expected_xcode_version);
    assert_eq!(inferred_os_version, expected_os_version);
}

#[test]
fn test_infer_parameters_xcode_version_provided() {
    let provided_xcode_version = Some(marathon_cloud::ios::XcodeVersion::Xcode15_2);
    let expected_device = Some(marathon_cloud::ios::IosDevice::IPhone15);
    let expected_os_version = Some(marathon_cloud::ios::OsVersion::Ios17_2);

    let (inferred_device, inferred_xcode_version, inferred_os_version) =
        marathon_cloud::ios::infer_parameters(None, provided_xcode_version, None);

    assert_eq!(inferred_device, expected_device);
    assert_eq!(
        inferred_xcode_version,
        Some(marathon_cloud::ios::XcodeVersion::Xcode15_2)
    );
    assert_eq!(inferred_os_version, expected_os_version);
}

#[test]
fn test_infer_parameters_os_version_provided() {
    let provided_os_version = Some(marathon_cloud::ios::OsVersion::Ios16_4);
    let expected_device = Some(marathon_cloud::ios::IosDevice::IPhone14);
    let expected_xcode_version = Some(marathon_cloud::ios::XcodeVersion::Xcode14_3_1);

    let (inferred_device, inferred_xcode_version, inferred_os_version) =
        marathon_cloud::ios::infer_parameters(None, None, provided_os_version);

    assert_eq!(inferred_device, expected_device);
    assert_eq!(inferred_xcode_version, expected_xcode_version);
    assert_eq!(
        inferred_os_version,
        Some(marathon_cloud::ios::OsVersion::Ios16_4)
    );
}

#[test]
fn cli_test_infer_parameters_device_and_xcode_version_provided() {
    let provided_device = Some(marathon_cloud::ios::IosDevice::IPhone14);
    let provided_xcode_version = Some(marathon_cloud::ios::XcodeVersion::Xcode14_3_1);
    let expected_os_version = Some(marathon_cloud::ios::OsVersion::Ios16_4);

    let (inferred_device, inferred_xcode_version, inferred_os_version) =
        marathon_cloud::ios::infer_parameters(
            provided_device.clone(),
            provided_xcode_version.clone(),
            None,
        );

    // Check if the provided parameters are unchanged
    assert_eq!(inferred_device, provided_device);
    assert_eq!(inferred_xcode_version, provided_xcode_version);

    // Check if the missing parameter is correctly inferred
    assert_eq!(inferred_os_version, expected_os_version);
}

#[test]
fn test_supported_configs_cover_every_combination_once() {
    let configs = get_supported_configs();
    assert_eq!(configs.len(), 14);
    assert_eq!(
        configs[0],
        (
            Some(IosDevice::IPhone15),
            Some(XcodeVersion::Xcode15_4),
            Some(OsVersion::Ios17_5)
        )
    );
}

#[test]
fn test_granted_permissions_accept_documented_ones() {
    let allowed = get_allowed_permissions();
    assert_eq!(allowed.len(), 12);
    assert!(validate_granted_permissions(&vec![
        "calendar".to_string(),
        "siri".to_string()
    ])
    .is_ok());
}

#[test]
fn test_granted_permissions_reject_unknown_ones() {
    let r = validate_granted_permissions(&vec![
        "calendar".to_string(),
        "root".to_string(),
        "sudo".to_string(),
    ]);
    assert_eq!(
        r,
        Err(InputError::IncorrectPermission {
            permissions: vec!["root".to_string(), "sudo".to_string()]
        })
    );
}

#[test]
fn test_android_watch_needs_google_apis() {
    let r = android::validate_device_configuration(
        &Some("watch".to_string()),
        &None,
        &Some(android::SystemImage::Default),
        &Some(android::OsVersion::Android11),
    );
    assert!(r.is_err());
    let ok = android::validate_device_configuration(
        &Some("watch".to_string()),
        &None,
        &Some(android::SystemImage::GoogleApis),
        &Some(android::OsVersion::Android11),
    );
    assert!(ok.is_ok());
}

#[test]
fn test_android_tv_and_wear_limits() {
    assert!(android::validate_device_configuration(
        &Some("tv".to_string()),
        &None,
        &Some(android::SystemImage::GoogleApis),
        &Some(android::OsVersion::Android15),
    )
    .is_err());
    assert!(android::validate_device_configuration(
        &Some("wear".to_string()),
        &None,
        &Some(android::SystemImage::GoogleApis),
        &Some(android::OsVersion::Android15),
    )
    .is_err());
    assert!(android::validate_device_configuration(
        &Some("tv".to_string()),
        &Some(android::Flavor::JsJestAppium),
        &Some(android::SystemImage::GoogleApis),
        &Some(android::OsVersion::Android13),
    )
    .is_err());
}

#[test]
fn test_android_os_15_needs_google_apis() {
    assert!(android::validate_device_configuration(
        &None,
        &None,
        &None,
        &Some(android::OsVersion::Android15),
    )
    .is_err());
    assert!(android::validate_device_configuration(
        &None,
        &None,
        &Some(android::SystemImage::GoogleApis),
        &Some(android::OsVersion::Android15),
    )
    .is_ok());
}

#[test]
fn test_android_run_arguments_need_packages() {
    assert!(android::validate_run_arguments(false, false, None, false, false).is_err());
    assert!(android::validate_run_arguments(true, false, None, false, false).is_err());
    assert!(android::validate_run_arguments(false, true, None, false, false).is_err());
    assert!(android::validate_run_arguments(true, true, None, false, false).is_ok());
    assert!(android::validate_run_arguments(false, false, Some(1), false, false).is_ok());
}

#[test]
fn test_android_mock_location_limits() {
    assert!(android::validate_run_arguments(false, false, Some(2), false, true).is_err());
    assert!(android::validate_run_arguments(false, false, Some(1), false, true).is_ok());
    assert!(android::validate_run_arguments(false, false, None, true, true).is_err());
}

#[test]
fn test_transform_splits_application_bundle() {
    let bundle = transform("app.apk,test.apk").unwrap();
    assert_eq!(bundle.application, "app.apk".to_string());
    assert_eq!(bundle.test_application, "test.apk".to_string());
    assert!(transform("only-one.apk").is_err());
    assert!(transform("a.apk,b.apk,c.apk").is_err());
}

#[test]
fn test_retry_args_no_retries_zeroes_quotas() {
    let args = RetryArgs {
        retry_quota_test_uncompleted: Some(7),
        retry_quota_test_preventive: None,
        retry_quota_test_reactive: Some(2),
        no_retries: true,
    };
    let r = retry_args(args);
    assert_eq!(r.retry_quota_test_uncompleted, Some(0));
    assert_eq!(r.retry_quota_test_preventive, Some(0));
    assert_eq!(r.retry_quota_test_reactive, Some(0));
    assert!(!r.no_retries);

    let kept = retry_args(RetryArgs::new(Some(7), None, Some(2)));
    assert_eq!(kept.retry_quota_test_uncompleted, Some(7));
}

#[test]
fn test_result_file_args_accept_known_extensions() {
    assert!(result_file_args(&None).is_ok());
    assert!(result_file_args(&Some("r.json".to_string())).is_ok());
    assert!(result_file_args(&Some("r.yml".to_string())).is_ok());
    assert!(result_file_args(&Some("r.xml".to_string())).is_err());
}

#[test]
fn test_ensure_distinct_bundle_refuses_same_hash() {
    let app = LocalFileReference {
        path: "a.apk".to_string(),
        md5: "aaaa".to_string(),
    };
    let test_app = LocalFileReference {
        path: "b.apk".to_string(),
        md5: "aaaa".to_string(),
    };
    assert!(ensure_distinct_bundle(&app, &test_app).is_err());
    let other = LocalFileReference {
        path: "b.apk".to_string(),
        md5: "bbbb".to_string(),
    };
    assert!(ensure_distinct_bundle(&app, &other).is_ok());
}

#[test]
fn test_ensure_positive_rejects_zero() {
    assert!(ensure_positive(Some(0), "--concurrency-limit").is_err());
    assert!(ensure_positive(Some(3), "--concurrency-limit").is_ok());
    assert!(ensure_positive(None, "--concurrency-limit").is_ok());
}

#[test]
fn test_classify_bundle_format() {
    let files = vec!["zip".to_string(), "ipa".to_string()];
    let dirs = vec!["app".to_string()];
    assert_eq!(
        classify_bundle_format("sample.zip", true, false, &files, &dirs),
        BundleFormat::Ready
    );
    assert_eq!(
        classify_bundle_format("sample.app", false, true, &files, &dirs),
        BundleFormat::NeedsZip
    );
    assert_eq!(
        classify_bundle_format("sample", false, true, &files, &vec![]),
        BundleFormat::NeedsZip
    );
    assert_eq!(
        classify_bundle_format("sample.tar", true, false, &files, &dirs),
        BundleFormat::Unsupported
    );
}

#[test]
fn test_validate_flow_strips_test_application_prefix() {
    assert_eq!(
        validate_flow("/work/app.xctest", "/work/app.xctest/flows/login.yaml").unwrap(),
        "flows/login.yaml".to_string()
    );
    assert_eq!(
        validate_flow("/work/app.xctest", "/work/app.xctest").unwrap(),
        "".to_string()
    );
    assert!(validate_flow("/work/app.xctest", "/elsewhere/flow.yaml").is_err());
}

#[test]
fn test_platform_names() {
    assert_eq!(Platform::Android.name(), "Android".to_string());
    assert_eq!(Platform::iOS.name(), "iOS".to_string());
}

#[test]
fn test_device_identifier_names() {
    assert_eq!(
        IosDevice::IPhone16Pro.name(),
        "com.apple.CoreSimulator.SimDeviceType.iPhone-16-Pro".to_string()
    );
    assert_eq!(
        OsVersion::Ios18_4.name(),
        "com.apple.CoreSimulator.SimRuntime.iOS-18-4".to_string()
    );
    assert_eq!(XcodeVersion::Xcode16_3.name(), "16.3".to_string());
    assert_eq!(android::OsVersion::Android15.name(), "15".to_string());
    assert_eq!(android::SystemImage::GoogleApis.name(), "google_apis".to_string());
    assert_eq!(
        android::Flavor::PythonRobotFrameworkAppium.name(),
        "python-robotframework-appium".to_string()
    );
}
