//! Android run options and the configuration rules the front end enforces
//! before submitting.

use vstd::prelude::*;

use crate::errors::ConfigurationError;
use crate::strutil::str_eq;

verus! {

/// The system images offered for Android devices.
#[derive(Debug, Clone, Copy, PartialEq, Eq, Structural)]
pub enum SystemImage {
    Default,
    GoogleApis,
}

impl SystemImage {
    /// The identifier sent to the service.
    pub fn name(&self) -> (r: String)
        ensures
            self is Default ==> r@ == "default"@,
            self is GoogleApis ==> r@ == "google_apis"@,
    {
        match self {
            SystemImage::Default => String::from_str("default"),
            SystemImage::GoogleApis => String::from_str("google_apis"),
        }
    }
}

/// The Android OS versions the service offers.
#[derive(Debug, Clone, Copy, PartialEq, Eq, Structural)]
pub enum OsVersion {
    Android10,
    Android11,
    Android12,
    Android13,
    Android14,
    Android15,
}

impl OsVersion {
    /// The identifier sent to the service.
    pub fn name(&self) -> (r: String)
        ensures
            self is Android10 ==> r@ == "10"@,
            self is Android11 ==> r@ == "11"@,
            self is Android12 ==> r@ == "12"@,
            self is Android13 ==> r@ == "13"@,
            self is Android14 ==> r@ == "14"@,
            self is Android15 ==> r@ == "15"@,
    {
        match self {
            OsVersion::Android10 => String::from_str("10"),
            OsVersion::Android11 => String::from_str("11"),
            OsVersion::Android12 => String::from_str("12"),
            OsVersion::Android13 => String::from_str("13"),
            OsVersion::Android14 => String::from_str("14"),
            OsVersion::Android15 => String::from_str("15"),
        }
    }
}

/// The test flavors offered for Android runs.
#[derive(Debug, Clone, Copy, PartialEq, Eq, Structural)]
pub enum Flavor {
    Native,
    JsJestAppium,
    PythonRobotFrameworkAppium,
}

impl Flavor {
    /// The identifier sent to the service.
    pub fn name(&self) -> (r: String)
        ensures
            self is Native ==> r@ == "native"@,
            self is JsJestAppium ==> r@ == "js-jest-appium"@,
            self is PythonRobotFrameworkAppium ==> r@ == "python-robotframework-appium"@,
    {
        match self {
            Flavor::Native => String::from_str("native"),
            Flavor::JsJestAppium => String::from_str("js-jest-appium"),
            Flavor::PythonRobotFrameworkAppium => String::from_str(
                "python-robotframework-appium",
            ),
        }
    }
}

/// The device argument names this class of device.
pub open spec fn spec_is_device(device: Option<String>, name: Seq<char>) -> bool {
    device matches Some(d) && d@ == name
}

/// No system image, or the default one.
pub open spec fn spec_default_image(system_image: Option<SystemImage>) -> bool {
    system_image is None || system_image == Some(SystemImage::Default)
}

/// The OS versions Android Watch does not run.
pub open spec fn spec_watch_unsupported_os(os_version: Option<OsVersion>) -> bool {
    ||| os_version == Some(OsVersion::Android10)
    ||| os_version == Some(OsVersion::Android12)
    ||| os_version == Some(OsVersion::Android14)
    ||| os_version == Some(OsVersion::Android15)
}

/// An Appium-based flavor.
pub open spec fn spec_appium_flavor(flavor: Option<Flavor>) -> bool {
    flavor == Some(Flavor::JsJestAppium) || flavor == Some(Flavor::PythonRobotFrameworkAppium)
}

/// A watch without the Google APIs image, or on an OS it does not run.
pub open spec fn spec_watch_conflict(
    device: Option<String>,
    system_image: Option<SystemImage>,
    os_version: Option<OsVersion>,
) -> bool {
    spec_is_device(device, "watch"@) && (spec_default_image(system_image)
        || spec_watch_unsupported_os(os_version))
}

/// A TV with the default system image.
pub open spec fn spec_tv_image_conflict(
    device: Option<String>,
    system_image: Option<SystemImage>,
) -> bool {
    spec_is_device(device, "tv"@) && system_image == Some(SystemImage::Default)
}

/// An Appium flavor on a TV or watch.
pub open spec fn spec_appium_conflict(device: Option<String>, flavor: Option<Flavor>) -> bool {
    (spec_is_device(device, "tv"@) || spec_is_device(device, "watch"@)) && spec_appium_flavor(
        flavor,
    )
}

/// The latest OS version without the Google APIs image.
pub open spec fn spec_v15_image_conflict(
    system_image: Option<SystemImage>,
    os_version: Option<OsVersion>,
) -> bool {
    spec_default_image(system_image) && os_version == Some(OsVersion::Android15)
}

fn device_is(device: &Option<String>, name: &str) -> (r: bool)
    ensures
        r == spec_is_device(*device, name@),
{
    match device {
        Some(d) => str_eq(d.as_str(), name),
        None => false,
    }
}

/// Refuse device, image, OS and flavor combinations the service cannot
/// run. The first rule broken decides the message: watches need the Google
/// APIs image and an OS they support, TVs the Google APIs image, TVs and
/// wearables stop before the latest OS version, Appium flavors need
/// phones, and the latest OS version needs the Google APIs image.
pub fn validate_device_configuration(
    device: &Option<String>,
    flavor: &Option<Flavor>,
    system_image: &Option<SystemImage>,
    os_version: &Option<OsVersion>,
) -> (r: Result<(), ConfigurationError>)
    ensures
        r is Err <==> {
            ||| spec_watch_conflict(*device, *system_image, *os_version)
            ||| spec_tv_image_conflict(*device, *system_image)
            ||| (spec_is_device(*device, "tv"@) && *os_version == Some(OsVersion::Android15))
            ||| (spec_is_device(*device, "wear"@) && *os_version == Some(OsVersion::Android15))
            ||| spec_appium_conflict(*device, *flavor)
            ||| spec_v15_image_conflict(*system_image, *os_version)
        },
        r matches Err(ConfigurationError::UnsupportedRunConfiguration { message }) ==> {
            &&& (spec_watch_conflict(*device, *system_image, *os_version) ==> message@
                == "Android Watch only supports google-apis system image and os versions 11 and 13"@)
            &&& (!spec_watch_conflict(*device, *system_image, *os_version)
                && spec_tv_image_conflict(*device, *system_image) ==> message@
                == "Android TV only supports google-apis system image"@)
            &&& (!spec_watch_conflict(*device, *system_image, *os_version)
                && !spec_tv_image_conflict(*device, *system_image) && spec_is_device(
                *device,
                "tv"@,
            ) && *os_version == Some(OsVersion::Android15) ==> message@
                == "Android TV doesn't support os version 15"@)
            &&& (!spec_watch_conflict(*device, *system_image, *os_version)
                && !spec_tv_image_conflict(*device, *system_image) && !(spec_is_device(
                *device,
                "tv"@,
            ) && *os_version == Some(OsVersion::Android15)) && spec_is_device(*device, "wear"@)
                && *os_version == Some(OsVersion::Android15) ==> message@
                == "Android Wear doesn't support os version 15"@)
            &&& (!spec_watch_conflict(*device, *system_image, *os_version)
                && !spec_tv_image_conflict(*device, *system_image) && !(spec_is_device(
                *device,
                "tv"@,
            ) && *os_version == Some(OsVersion::Android15)) && !(spec_is_device(*device, "wear"@)
                && *os_version == Some(OsVersion::Android15)) && spec_appium_conflict(
                *device,
                *flavor,
            ) ==> message@
                == "js-jest-appium and python-robotframework-appium only support 'phone' devices"@)
        },
{
    let is_watch = device_is(device, "watch");
    let is_tv = device_is(device, "tv");
    let is_wear = device_is(device, "wear");
    let default_image = match system_image {
        None => true,
        Some(SystemImage::Default) => true,
        Some(SystemImage::GoogleApis) => false,
    };
    let os_is_15 = match os_version {
        Some(OsVersion::Android15) => true,
        _ => false,
    };
    let watch_bad_os = match os_version {
        Some(OsVersion::Android10) | Some(OsVersion::Android12) | Some(OsVersion::Android14)
            | Some(OsVersion::Android15) => true,
        _ => false,
    };
    let appium = match flavor {
        Some(Flavor::JsJestAppium) | Some(Flavor::PythonRobotFrameworkAppium) => true,
        _ => false,
    };
    if is_watch && (default_image || watch_bad_os) {
        Err(
            ConfigurationError::UnsupportedRunConfiguration {
                message: String::from_str(
                    "Android Watch only supports google-apis system image and os versions 11 and 13",
                ),
            },
        )
    } else if is_tv && default_image && match system_image {
        Some(SystemImage::Default) => true,
        _ => false,
    } {
        Err(
            ConfigurationError::UnsupportedRunConfiguration {
                message: String::from_str("Android TV only supports google-apis system image"),
            },
        )
    } else if is_tv && os_is_15 {
        Err(
            ConfigurationError::UnsupportedRunConfiguration {
                message: String::from_str("Android TV doesn't support os version 15"),
            },
        )
    } else if is_wear && os_is_15 {
        Err(
            ConfigurationError::UnsupportedRunConfiguration {
                message: String::from_str("Android Wear doesn't support os version 15"),
            },
        )
    } else if (is_tv || is_watch) && appium {
        Err(
            ConfigurationError::UnsupportedRunConfiguration {
                message: String::from_str(
                    "js-jest-appium and python-robotframework-appium only support 'phone' devices",
                ),
            },
        )
    } else if default_image && os_is_15 {
        Err(
            ConfigurationError::UnsupportedRunConfiguration {
                message: String::from_str(
                    "Android OS version 15 only supports google-apis system image",
                ),
            },
        )
    } else {
        Ok(())
    }
}

/// Refuse argument combinations that name no usable set of packages, or
/// that mock location cannot work with. The first rule broken decides the
/// message.
pub fn validate_run_arguments(
    has_application: bool,
    has_test_application: bool,
    application_bundle_count: Option<usize>,
    has_library_bundle: bool,
    mock_location: bool,
) -> (r: Result<(), ConfigurationError>)
    ensures
        r is Err <==> {
            ||| (!has_application && !has_test_application && application_bundle_count is None
                && !has_library_bundle)
            ||| (has_application && !has_test_application && application_bundle_count is None
                && !has_library_bundle)
            ||| (!has_application && has_test_application && application_bundle_count is None
                && !has_library_bundle)
            ||| (application_bundle_count matches Some(n) && n > 1 && mock_location)
            ||| (application_bundle_count is None && !has_application && mock_location)
        },
        r matches Err(e) ==> e matches ConfigurationError::UnsupportedRunConfiguration { .. },
{
    if !has_application && !has_test_application && application_bundle_count.is_none()
        && !has_library_bundle {
        return Err(
            ConfigurationError::UnsupportedRunConfiguration {
                message: String::from_str(
                    "Please set up APKs for testing. The following argument combinations are possible:
--application <APPLICATION> --test-application <TEST_APPLICATION> - for application testing
--application-bundle <APPLICATION>,<TEST_APPLICATION> - advanced mode that allows setting up one or more application bundles for testing
--library-bundle <TEST_APPLICATION> - advanced mode that allows setting up one or more library bundles for testing",
                ),
            },
        );
    }
    if has_application && !has_test_application && application_bundle_count.is_none()
        && !has_library_bundle {
        return Err(
            ConfigurationError::UnsupportedRunConfiguration {
                message: String::from_str(
                    "Please set up Testing APK:
--test-application <TEST_APPLICATION>",
                ),
            },
        );
    }
    if !has_application && has_test_application && application_bundle_count.is_none()
        && !has_library_bundle {
        return Err(
            ConfigurationError::UnsupportedRunConfiguration {
                message: String::from_str(
                    "Please set up Application APK:
--application <TEST_APPLICATION>
If you are interesting in library testing then please use advance mode with --library-bundle argument",
                ),
            },
        );
    }
    match application_bundle_count {
        Some(n) => {
            if n > 1 && mock_location {
                return Err(
                    ConfigurationError::UnsupportedRunConfiguration {
                        message: String::from_str(
                            "Mock location access doesn't support multiple application bundles",
                        ),
                    },
                );
            }
        },
        None => {
            if !has_application && mock_location {
                return Err(
                    ConfigurationError::UnsupportedRunConfiguration {
                        message: String::from_str(
                            "There is no Application where mock location can be used",
                        ),
                    },
                );
            }
        },
    }
    Ok(())
}

} // verus!
