//! iOS run options: the supported device, Xcode and OS combinations, and
//! the inference of missing parameters from the ones given.

use vstd::prelude::*;

use crate::errors::ConfigurationError;
use crate::errors::InputError;

verus! {

/// The iOS simulator devices the service offers.
#[derive(Debug, Clone, Copy, PartialEq, Eq, Structural)]
pub enum IosDevice {
    IPhone11,
    IPhone15,
    IPhone15Pro,
    IPhone15ProMax,
    IPhone16,
    IPhone16Pro,
    IPhone16ProMax,
    IPhone16Plus,
}

impl IosDevice {
    /// The simulator device-type identifier sent to the service.
    pub fn name(&self) -> (r: String)
        ensures
            self is IPhone11 ==> r@ == "com.apple.CoreSimulator.SimDeviceType.iPhone-11"@,
            self is IPhone15 ==> r@ == "com.apple.CoreSimulator.SimDeviceType.iPhone-15"@,
            self is IPhone15Pro ==> r@ == "com.apple.CoreSimulator.SimDeviceType.iPhone-15-Pro"@,
            self is IPhone15ProMax ==> r@
                == "com.apple.CoreSimulator.SimDeviceType.iPhone-15-Pro-Max"@,
            self is IPhone16 ==> r@ == "com.apple.CoreSimulator.SimDeviceType.iPhone-16"@,
            self is IPhone16Pro ==> r@ == "com.apple.CoreSimulator.SimDeviceType.iPhone-16-Pro"@,
            self is IPhone16ProMax ==> r@
                == "com.apple.CoreSimulator.SimDeviceType.iPhone-16-Pro-Max"@,
            self is IPhone16Plus ==> r@ == "com.apple.CoreSimulator.SimDeviceType.iPhone-16-Plus"@,
    {
        match self {
            IosDevice::IPhone11 => String::from_str(
                "com.apple.CoreSimulator.SimDeviceType.iPhone-11",
            ),
            IosDevice::IPhone15 => String::from_str(
                "com.apple.CoreSimulator.SimDeviceType.iPhone-15",
            ),
            IosDevice::IPhone15Pro => String::from_str(
                "com.apple.CoreSimulator.SimDeviceType.iPhone-15-Pro",
            ),
            IosDevice::IPhone15ProMax => String::from_str(
                "com.apple.CoreSimulator.SimDeviceType.iPhone-15-Pro-Max",
            ),
            IosDevice::IPhone16 => String::from_str(
                "com.apple.CoreSimulator.SimDeviceType.iPhone-16",
            ),
            IosDevice::IPhone16Pro => String::from_str(
                "com.apple.CoreSimulator.SimDeviceType.iPhone-16-Pro",
            ),
            IosDevice::IPhone16ProMax => String::from_str(
                "com.apple.CoreSimulator.SimDeviceType.iPhone-16-Pro-Max",
            ),
            IosDevice::IPhone16Plus => String::from_str(
                "com.apple.CoreSimulator.SimDeviceType.iPhone-16-Plus",
            ),
        }
    }
}

/// The iOS runtime versions the service offers.
#[derive(Debug, Clone, Copy, PartialEq, Eq, Structural)]
pub enum OsVersion {
    Ios17_5,
    Ios18_2,
    Ios18_4,
}

impl OsVersion {
    /// The simulator runtime identifier sent to the service.
    pub fn name(&self) -> (r: String)
        ensures
            self is Ios17_5 ==> r@ == "com.apple.CoreSimulator.SimRuntime.iOS-17-5"@,
            self is Ios18_2 ==> r@ == "com.apple.CoreSimulator.SimRuntime.iOS-18-2"@,
            self is Ios18_4 ==> r@ == "com.apple.CoreSimulator.SimRuntime.iOS-18-4"@,
    {
        match self {
            OsVersion::Ios17_5 => String::from_str("com.apple.CoreSimulator.SimRuntime.iOS-17-5"),
            OsVersion::Ios18_2 => String::from_str("com.apple.CoreSimulator.SimRuntime.iOS-18-2"),
            OsVersion::Ios18_4 => String::from_str("com.apple.CoreSimulator.SimRuntime.iOS-18-4"),
        }
    }
}

/// The Xcode versions the service offers.
#[derive(Debug, Clone, Copy, PartialEq, Eq, Structural)]
pub enum XcodeVersion {
    Xcode15_4,
    Xcode16_2,
    Xcode16_3,
}

impl XcodeVersion {
    /// The version string sent to the service.
    pub fn name(&self) -> (r: String)
        ensures
            self is Xcode15_4 ==> r@ == "15.4"@,
            self is Xcode16_2 ==> r@ == "16.2"@,
            self is Xcode16_3 ==> r@ == "16.3"@,
    {
        match self {
            XcodeVersion::Xcode15_4 => String::from_str("15.4"),
            XcodeVersion::Xcode16_2 => String::from_str("16.2"),
            XcodeVersion::Xcode16_3 => String::from_str("16.3"),
        }
    }
}

/// The combinations of device, Xcode version and OS version the service
/// supports.
pub open spec fn supported_triples() -> Seq<(IosDevice, XcodeVersion, OsVersion)> {
    seq![
        (IosDevice::IPhone15, XcodeVersion::Xcode15_4, OsVersion::Ios17_5),
        (IosDevice::IPhone15Pro, XcodeVersion::Xcode15_4, OsVersion::Ios17_5),
        (IosDevice::IPhone15ProMax, XcodeVersion::Xcode15_4, OsVersion::Ios17_5),
        (IosDevice::IPhone11, XcodeVersion::Xcode15_4, OsVersion::Ios17_5),
        (IosDevice::IPhone16, XcodeVersion::Xcode16_2, OsVersion::Ios18_2),
        (IosDevice::IPhone16Pro, XcodeVersion::Xcode16_2, OsVersion::Ios18_2),
        (IosDevice::IPhone16ProMax, XcodeVersion::Xcode16_2, OsVersion::Ios18_2),
        (IosDevice::IPhone16Plus, XcodeVersion::Xcode16_2, OsVersion::Ios18_2),
        (IosDevice::IPhone11, XcodeVersion::Xcode16_2, OsVersion::Ios18_2),
        (IosDevice::IPhone16, XcodeVersion::Xcode16_3, OsVersion::Ios18_4),
        (IosDevice::IPhone16Pro, XcodeVersion::Xcode16_3, OsVersion::Ios18_4),
        (IosDevice::IPhone16ProMax, XcodeVersion::Xcode16_3, OsVersion::Ios18_4),
        (IosDevice::IPhone16Plus, XcodeVersion::Xcode16_3, OsVersion::Ios18_4),
        (IosDevice::IPhone11, XcodeVersion::Xcode16_3, OsVersion::Ios18_4),
    ]
}

fn supported_table() -> (r: Vec<(IosDevice, XcodeVersion, OsVersion)>)
    ensures
        r@ == supported_triples(),
{
    let mut t: Vec<(IosDevice, XcodeVersion, OsVersion)> = Vec::new();
    t.push((IosDevice::IPhone15, XcodeVersion::Xcode15_4, OsVersion::Ios17_5));
    t.push((IosDevice::IPhone15Pro, XcodeVersion::Xcode15_4, OsVersion::Ios17_5));
    t.push((IosDevice::IPhone15ProMax, XcodeVersion::Xcode15_4, OsVersion::Ios17_5));
    t.push((IosDevice::IPhone11, XcodeVersion::Xcode15_4, OsVersion::Ios17_5));
    t.push((IosDevice::IPhone16, XcodeVersion::Xcode16_2, OsVersion::Ios18_2));
    t.push((IosDevice::IPhone16Pro, XcodeVersion::Xcode16_2, OsVersion::Ios18_2));
    t.push((IosDevice::IPhone16ProMax, XcodeVersion::Xcode16_2, OsVersion::Ios18_2));
    t.push((IosDevice::IPhone16Plus, XcodeVersion::Xcode16_2, OsVersion::Ios18_2));
    t.push((IosDevice::IPhone11, XcodeVersion::Xcode16_2, OsVersion::Ios18_2));
    t.push((IosDevice::IPhone16, XcodeVersion::Xcode16_3, OsVersion::Ios18_4));
    t.push((IosDevice::IPhone16Pro, XcodeVersion::Xcode16_3, OsVersion::Ios18_4));
    t.push((IosDevice::IPhone16ProMax, XcodeVersion::Xcode16_3, OsVersion::Ios18_4));
    t.push((IosDevice::IPhone16Plus, XcodeVersion::Xcode16_3, OsVersion::Ios18_4));
    t.push((IosDevice::IPhone11, XcodeVersion::Xcode16_3, OsVersion::Ios18_4));
    assert(t@ =~= supported_triples());
    t
}

/// The supported combinations, each component wrapped for the callers that
/// filter on partially given parameters.
pub fn get_supported_configs() -> (r: Vec<
    (Option<IosDevice>, Option<XcodeVersion>, Option<OsVersion>),
>)
    ensures
        r@.len() == supported_triples().len(),
        forall|k: int|
            0 <= k < r@.len() ==> #[trigger] r@[k] == (
                Some(supported_triples()[k].0),
                Some(supported_triples()[k].1),
                Some(supported_triples()[k].2),
            ),
{
    let table = supported_table();
    let mut r: Vec<(Option<IosDevice>, Option<XcodeVersion>, Option<OsVersion>)> = Vec::new();
    let n = table.len();
    let mut i: usize = 0;
    while i < n
        invariant
            n == table@.len(),
            table@ == supported_triples(),
            i <= n,
            r@.len() == i,
            forall|k: int|
                0 <= k < i ==> #[trigger] r@[k] == (
                    Some(supported_triples()[k].0),
                    Some(supported_triples()[k].1),
                    Some(supported_triples()[k].2),
                ),
        decreases n - i,
    {
        let entry = table[i];
        r.push((Some(entry.0), Some(entry.1), Some(entry.2)));
        i = i + 1;
    }
    r
}

/// Whether a supported combination agrees with every parameter the caller
/// gave.
pub open spec fn config_matches(
    c: (IosDevice, XcodeVersion, OsVersion),
    device: Option<IosDevice>,
    xcode_version: Option<XcodeVersion>,
    os_version: Option<OsVersion>,
) -> bool {
    &&& (device is None || device == Some(c.0))
    &&& (xcode_version is None || xcode_version == Some(c.1))
    &&& (os_version is None || os_version == Some(c.2))
}

/// `i` points at the only supported combination that matches.
pub open spec fn unique_match(
    i: int,
    device: Option<IosDevice>,
    xcode_version: Option<XcodeVersion>,
    os_version: Option<OsVersion>,
) -> bool {
    &&& 0 <= i < supported_triples().len()
    &&& config_matches(supported_triples()[i], device, xcode_version, os_version)
    &&& forall|j: int|
        0 <= j < supported_triples().len() && j != i ==> !config_matches(
            #[trigger] supported_triples()[j],
            device,
            xcode_version,
            os_version,
        )
}

fn matches_filter(
    c: &(IosDevice, XcodeVersion, OsVersion),
    device: &Option<IosDevice>,
    xcode_version: &Option<XcodeVersion>,
    os_version: &Option<OsVersion>,
) -> (r: bool)
    ensures
        r == config_matches(*c, *device, *xcode_version, *os_version),
{
    let device_ok = match device {
        None => true,
        Some(d) => c.0 == *d,
    };
    let xcode_ok = match xcode_version {
        None => true,
        Some(x) => c.1 == *x,
    };
    let os_ok = match os_version {
        None => true,
        Some(o) => c.2 == *o,
    };
    device_ok && xcode_ok && os_ok
}

/// Complete a partially given device configuration. Exactly one supported
/// combination may remain: none at all is invalid, several are ambiguous,
/// and each case reports its own message.
pub fn infer_parameters(
    device: Option<IosDevice>,
    xcode_version: Option<XcodeVersion>,
    os_version: Option<OsVersion>,
) -> (r: Result<(IosDevice, XcodeVersion, OsVersion), ConfigurationError>)
    ensures
        r is Ok <==> exists|i: int| unique_match(i, device, xcode_version, os_version),
        r matches Ok(t) ==> exists|i: int|
            #[trigger] unique_match(i, device, xcode_version, os_version) && supported_triples()[i]
                == t,
        r matches Err(ConfigurationError::UnsupportedRunConfiguration { message }) ==> {
            &&& ((forall|j: int|
                0 <= j < supported_triples().len() ==> !config_matches(
                    #[trigger] supported_triples()[j],
                    device,
                    xcode_version,
                    os_version,
                )) ==> message@ == "Invalid parameters"@)
            &&& ((exists|j: int|
                0 <= j < supported_triples().len() && config_matches(
                    #[trigger] supported_triples()[j],
                    device,
                    xcode_version,
                    os_version,
                )) ==> message@ == "Ambiguous parameters, please provide more specific input."@)
        },
{
    let table = supported_table();
    let n = table.len();
    let mut first: Option<usize> = None;
    let mut second: Option<usize> = None;
    let mut i: usize = 0;
    while i < n
        invariant
            n == table@.len(),
            table@ == supported_triples(),
            i <= n,
            first is None ==> second is None && (forall|j: int|
                0 <= j < i ==> !config_matches(
                    #[trigger] supported_triples()[j],
                    device,
                    xcode_version,
                    os_version,
                )),
            first matches Some(f) ==> 0 <= f < i && config_matches(
                supported_triples()[f as int],
                device,
                xcode_version,
                os_version,
            ),
            first is Some && second is None ==> forall|j: int|
                0 <= j < i && j != first->0 ==> !config_matches(
                    #[trigger] supported_triples()[j],
                    device,
                    xcode_version,
                    os_version,
                ),
            second matches Some(s) ==> 0 <= s < i && config_matches(
                supported_triples()[s as int],
                device,
                xcode_version,
                os_version,
            ) && (first matches Some(f) && f != s),
        decreases n - i,
    {
        if matches_filter(&table[i], &device, &xcode_version, &os_version) {
            if first.is_none() {
                first = Some(i);
            } else if second.is_none() {
                second = Some(i);
            }
        }
        i = i + 1;
    }
    match (first, second) {
        (None, _) => {
            assert(forall|j: int|
                0 <= j < supported_triples().len() ==> !config_matches(
                    #[trigger] supported_triples()[j],
                    device,
                    xcode_version,
                    os_version,
                ));
            assert forall|k: int| !unique_match(k, device, xcode_version, os_version) by {}
            Err(
                ConfigurationError::UnsupportedRunConfiguration {
                    message: String::from_str("Invalid parameters"),
                },
            )
        },
        (Some(f), None) => {
            assert(unique_match(f as int, device, xcode_version, os_version));
            let entry = table[f];
            Ok((entry.0, entry.1, entry.2))
        },
        (Some(f), Some(s)) => {
            assert forall|k: int| !unique_match(k, device, xcode_version, os_version) by {
                if unique_match(k, device, xcode_version, os_version) {
                    if k != f as int {
                        assert(!config_matches(
                            supported_triples()[f as int],
                            device,
                            xcode_version,
                            os_version,
                        ));
                    } else {
                        assert(!config_matches(
                            supported_triples()[s as int],
                            device,
                            xcode_version,
                            os_version,
                        ));
                    }
                }
            }
            Err(
                ConfigurationError::UnsupportedRunConfiguration {
                    message: String::from_str(
                        "Ambiguous parameters, please provide more specific input.",
                    ),
                },
            )
        },
    }
}

/// Check a partially given configuration: nothing given passes untouched,
/// anything else must infer to exactly one supported combination.
pub fn validate_device_configuration(
    os_version: Option<OsVersion>,
    device: Option<IosDevice>,
    xcode_version: Option<XcodeVersion>,
) -> (r: Result<
    (Option<IosDevice>, Option<XcodeVersion>, Option<OsVersion>),
    ConfigurationError,
>)
    ensures
        device is None && xcode_version is None && os_version is None ==> (r matches Ok(t) && t.0
            is None && t.1 is None && t.2 is None),
        !(device is None && xcode_version is None && os_version is None) ==> {
            &&& (r is Ok <==> exists|i: int| unique_match(i, device, xcode_version, os_version))
            &&& (r matches Ok(t) ==> exists|i: int|
                #[trigger] unique_match(i, device, xcode_version, os_version) && t == (
                    Some(supported_triples()[i].0),
                    Some(supported_triples()[i].1),
                    Some(supported_triples()[i].2),
                ))
        },
        r matches Err(e) ==> e matches ConfigurationError::UnsupportedRunConfiguration { .. },
{
    if device.is_none() && xcode_version.is_none() && os_version.is_none() {
        return Ok((None, None, None));
    }
    match infer_parameters(device, xcode_version, os_version) {
        Ok((d, x, o)) => Ok((Some(d), Some(x), Some(o))),
        Err(_) => Err(
            ConfigurationError::UnsupportedRunConfiguration {
                message: String::from_str(
                    "
Please set --xcode-version, --os-version, and --device correctly.
Supported iOS settings combinations are:
    --xcode-version 15.4 --os-version 17.5 --device iPhone-15 => Default
    --xcode-version 15.4 --os-version 17.5 --device iPhone-15-Pro
    --xcode-version 15.4 --os-version 17.5 --device iPhone-15-Pro-Max
    --xcode-version 15.4 --os-version 17.5 --device iPhone-11
    --xcode-version 16.2 --os-version 18.2 --device iPhone-16
    --xcode-version 16.2 --os-version 18.2 --device iPhone-16-Pro
    --xcode-version 16.2 --os-version 18.2 --device iPhone-16-Pro-Max
    --xcode-version 16.2 --os-version 18.2 --device iPhone-16-Plus
    --xcode-version 16.2 --os-version 18.2 --device iPhone-11
    --xcode-version 16.3 --os-version 18.4 --device iPhone-16
    --xcode-version 16.3 --os-version 18.4 --device iPhone-16-Pro
    --xcode-version 16.3 --os-version 18.4 --device iPhone-16-Pro-Max
    --xcode-version 16.3 --os-version 18.4 --device iPhone-16-Plus
    --xcode-version 16.3 --os-version 18.4 --device iPhone-11
First example: If you choose --xcode-version 15.4 --device iPhone-15-Pro then the --os-version will be inferred (17.5).
Second example: If you choose --device iPhone-11 then you will receive an error because --os-version and --xcode-version params are ambiguous.",
                ),
            },
        ),
    }
}

/// The permissions a run may grant to the application under test.
pub open spec fn allowed_permissions() -> Seq<Seq<char>> {
    seq![
        "calendar"@,
        "contacts-limited"@,
        "contacts"@,
        "location"@,
        "location-always"@,
        "photos-add"@,
        "photos"@,
        "media-library"@,
        "microphone"@,
        "motion"@,
        "reminders"@,
        "siri"@,
    ]
}

/// Whether `p` is a grantable permission.
pub open spec fn is_allowed_permission(p: Seq<char>) -> bool {
    allowed_permissions().contains(p)
}

/// The grantable permissions, in their documented order.
pub fn get_allowed_permissions() -> (r: Vec<String>)
    ensures
        r@.len() == allowed_permissions().len(),
        forall|k: int| 0 <= k < r@.len() ==> (#[trigger] r@[k])@ == allowed_permissions()[k],
{
    let mut r: Vec<String> = Vec::new();
    r.push(String::from_str("calendar"));
    r.push(String::from_str("contacts-limited"));
    r.push(String::from_str("contacts"));
    r.push(String::from_str("location"));
    r.push(String::from_str("location-always"));
    r.push(String::from_str("photos-add"));
    r.push(String::from_str("photos"));
    r.push(String::from_str("media-library"));
    r.push(String::from_str("microphone"));
    r.push(String::from_str("motion"));
    r.push(String::from_str("reminders"));
    r.push(String::from_str("siri"));
    assert forall|k: int| 0 <= k < r@.len() implies (#[trigger] r@[k])@
        == allowed_permissions()[k] by {}
    r
}

/// The granted permissions that are not grantable, in order.
pub open spec fn spec_invalid_permissions(granted: Seq<String>) -> Seq<String>
    decreases granted.len(),
{
    if granted.len() == 0 {
        Seq::empty()
    } else {
        spec_invalid_permissions(granted.drop_last()) + (if !is_allowed_permission(
            granted.last()@,
        ) {
            seq![granted.last()]
        } else {
            Seq::empty()
        })
    }
}

/// Refuse a grant list containing anything outside the documented
/// permissions; the error carries exactly the offending entries.
pub fn validate_granted_permissions(granted: &Vec<String>) -> (r: Result<(), InputError>)
    ensures
        r is Ok <==> (forall|k: int| 0 <= k < granted@.len() ==> is_allowed_permission(
            (#[trigger] granted@[k])@,
        )),
        r matches Err(InputError::IncorrectPermission { permissions }) ==> permissions@
            == spec_invalid_permissions(granted@),
        r matches Err(e) ==> e matches InputError::IncorrectPermission { .. },
{
    let allowed = get_allowed_permissions();
    let mut invalid: Vec<String> = Vec::new();
    let n = granted.len();
    let mut i: usize = 0;
    assert(granted@.take(0) =~= Seq::<String>::empty());
    while i < n
        invariant
            n == granted@.len(),
            i <= n,
            allowed@.len() == allowed_permissions().len(),
            forall|k: int|
                0 <= k < allowed@.len() ==> (#[trigger] allowed@[k])@ == allowed_permissions()[k],
            invalid@ == spec_invalid_permissions(granted@.take(i as int)),
            invalid@.len() == 0 <==> (forall|k: int| 0 <= k < i ==> is_allowed_permission(
                (#[trigger] granted@[k])@,
            )),
        decreases n - i,
    {
        assert(granted@.take(i + 1).drop_last() =~= granted@.take(i as int));
        assert(granted@.take(i + 1).last() == granted@[i as int]);
        let ok = crate::cli::validate::list_contains(&allowed, granted[i].as_str());
        proof {
            if ok {
                let k = choose|k: int|
                    0 <= k < allowed@.len() && (#[trigger] allowed@[k])@ == granted@[i as int]@;
                assert(allowed_permissions()[k] == granted@[i as int]@);
                assert(is_allowed_permission(granted@[i as int]@));
            } else {
                if is_allowed_permission(granted@[i as int]@) {
                    let k = choose|k: int|
                        0 <= k < allowed_permissions().len() && allowed_permissions()[k]
                            == granted@[i as int]@;
                    assert((allowed@[k])@ == granted@[i as int]@);
                }
            }
        }
        if !ok {
            invalid.push(granted[i].clone());
        }
        assert(invalid@ =~= spec_invalid_permissions(granted@.take(i + 1)));
        i = i + 1;
    }
    assert(granted@.take(n as int) =~= granted@);
    if invalid.len() == 0 {
        Ok(())
    } else {
        Err(InputError::IncorrectPermission { permissions: invalid })
    }
}

} // verus!
