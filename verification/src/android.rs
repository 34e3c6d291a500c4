//! Android device options of the original command set.

use vstd::prelude::*;

verus! {

/// The Android device classes a run may target.
#[derive(Debug, Clone, Copy, PartialEq, Eq, Structural)]
pub enum Device {
    PHONE,
    TV,
    WEAR,
}

impl Device {
    /// The identifier sent to the service.
    pub fn name(&self) -> (r: String)
        ensures
            self is PHONE ==> r@ == "phone"@,
            self is TV ==> r@ == "tv"@,
            self is WEAR ==> r@ == "wear"@,
    {
        match self {
            Device::PHONE => String::from_str("phone"),
            Device::TV => String::from_str("tv"),
            Device::WEAR => String::from_str("wear"),
        }
    }
}

/// The system images offered for Android devices.
#[derive(Debug, Clone, Copy, PartialEq, Eq, Structural)]
pub enum SystemImage {
    Default,
    GoogleApis,
}

impl SystemImage {
    /// The identifier sent to the service.
    pub fn name(&self) -> (r: String)
        ensures
            self is Default ==> r@ == "default"@,
            self is GoogleApis ==> r@ == "google_apis"@,
    {
        match self {
            SystemImage::Default => String::from_str("default"),
            SystemImage::GoogleApis => String::from_str("google_apis"),
        }
    }
}

/// The Android OS versions of this command set.
#[derive(Debug, Clone, Copy, PartialEq, Eq, Structural)]
pub enum OsVersion {
    Android10,
    Android11,
    Android12,
    Android13,
    Android14,
}

impl OsVersion {
    /// The identifier sent to the service.
    pub fn name(&self) -> (r: String)
        ensures
            self is Android10 ==> r@ == "10"@,
            self is Android11 ==> r@ == "11"@,
            self is Android12 ==> r@ == "12"@,
            self is Android13 ==> r@ == "13"@,
            self is Android14 ==> r@ == "14"@,
    {
        match self {
            OsVersion::Android10 => String::from_str("10"),
            OsVersion::Android11 => String::from_str("11"),
            OsVersion::Android12 => String::from_str("12"),
            OsVersion::Android13 => String::from_str("13"),
            OsVersion::Android14 => String::from_str("14"),
        }
    }
}

/// The test flavors offered for Android runs.
#[derive(Debug, Clone, Copy, PartialEq, Eq, Structural)]
pub enum Flavor {
    Native,
    JsJestAppium,
    PythonRobotFrameworkAppium,
}

impl Flavor {
    /// The identifier sent to the service.
    pub fn name(&self) -> (r: String)
        ensures
            self is Native ==> r@ == "native"@,
            self is JsJestAppium ==> r@ == "js-jest-appium"@,
            self is PythonRobotFrameworkAppium ==> r@ == "python-robotframework-appium"@,
    {
        match self {
            Flavor::Native => String::from_str("native"),
            Flavor::JsJestAppium => String::from_str("js-jest-appium"),
            Flavor::PythonRobotFrameworkAppium => String::from_str(
                "python-robotframework-appium",
            ),
        }
    }
}

} // verus!
