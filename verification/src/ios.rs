//! iOS device options of the original command set.

use vstd::prelude::*;

verus! {

/// The iOS simulator devices of this command set.
#[derive(Debug, Clone, Copy, PartialEq, Eq, Structural)]
pub enum IosDevice {
    IPhone14,
    IPhone15,
    IPhone15Pro,
    IPhone15ProMax,
}

impl IosDevice {
    /// The simulator device-type identifier sent to the service.
    pub fn name(&self) -> (r: String)
        ensures
            self is IPhone14 ==> r@ == "com.apple.CoreSimulator.SimDeviceType.iPhone-14"@,
            self is IPhone15 ==> r@ == "com.apple.CoreSimulator.SimDeviceType.iPhone-15"@,
            self is IPhone15Pro ==> r@ == "com.apple.CoreSimulator.SimDeviceType.iPhone-15-Pro"@,
            self is IPhone15ProMax ==> r@
                == "com.apple.CoreSimulator.SimDeviceType.iPhone-15-Pro-Max"@,
    {
        match self {
            IosDevice::IPhone14 => String::from_str(
                "com.apple.CoreSimulator.SimDeviceType.iPhone-14",
            ),
            IosDevice::IPhone15 => String::from_str(
                "com.apple.CoreSimulator.SimDeviceType.iPhone-15",
            ),
            IosDevice::IPhone15Pro => String::from_str(
                "com.apple.CoreSimulator.SimDeviceType.iPhone-15-Pro",
            ),
            IosDevice::IPhone15ProMax => String::from_str(
                "com.apple.CoreSimulator.SimDeviceType.iPhone-15-Pro-Max",
            ),
        }
    }
}

/// The iOS runtime versions of this command set.
#[derive(Debug, Clone, Copy, PartialEq, Eq, Structural)]
pub enum OsVersion {
    Ios16_4,
    Ios17_2,
}

impl OsVersion {
    /// The simulator runtime identifier sent to the service.
    pub fn name(&self) -> (r: String)
        ensures
            self is Ios16_4 ==> r@ == "com.apple.CoreSimulator.SimRuntime.iOS-16-4"@,
            self is Ios17_2 ==> r@ == "com.apple.CoreSimulator.SimRuntime.iOS-17-2"@,
    {
        match self {
            OsVersion::Ios16_4 => String::from_str("com.apple.CoreSimulator.SimRuntime.iOS-16-4"),
            OsVersion::Ios17_2 => String::from_str("com.apple.CoreSimulator.SimRuntime.iOS-17-2"),
        }
    }
}

/// The Xcode versions of this command set.
#[derive(Debug, Clone, Copy, PartialEq, Eq, Structural)]
pub enum XcodeVersion {
    Xcode14_3_1,
    Xcode15_2,
}

impl XcodeVersion {
    /// The version string sent to the service.
    pub fn name(&self) -> (r: String)
        ensures
            self is Xcode14_3_1 ==> r@ == "14.3.1"@,
            self is Xcode15_2 ==> r@ == "15.2"@,
    {
        match self {
            XcodeVersion::Xcode14_3_1 => String::from_str("14.3.1"),
            XcodeVersion::Xcode15_2 => String::from_str("15.2"),
        }
    }
}

/// The device, Xcode and OS combinations of this command set.
pub open spec fn supported_triples() -> Seq<(IosDevice, XcodeVersion, OsVersion)> {
    seq![
        (IosDevice::IPhone14, XcodeVersion::Xcode14_3_1, OsVersion::Ios16_4),
        (IosDevice::IPhone15, XcodeVersion::Xcode15_2, OsVersion::Ios17_2),
        (IosDevice::IPhone15Pro, XcodeVersion::Xcode15_2, OsVersion::Ios17_2),
        (IosDevice::IPhone15ProMax, XcodeVersion::Xcode15_2, OsVersion::Ios17_2),
    ]
}

fn supported_table() -> (r: Vec<(IosDevice, XcodeVersion, OsVersion)>)
    ensures
        r@ == supported_triples(),
{
    let mut t: Vec<(IosDevice, XcodeVersion, OsVersion)> = Vec::new();
    t.push((IosDevice::IPhone14, XcodeVersion::Xcode14_3_1, OsVersion::Ios16_4));
    t.push((IosDevice::IPhone15, XcodeVersion::Xcode15_2, OsVersion::Ios17_2));
    t.push((IosDevice::IPhone15Pro, XcodeVersion::Xcode15_2, OsVersion::Ios17_2));
    t.push((IosDevice::IPhone15ProMax, XcodeVersion::Xcode15_2, OsVersion::Ios17_2));
    assert(t@ =~= supported_triples());
    t
}

/// The supported combinations, each component wrapped as the inference
/// works on partially given parameters.
pub fn get_supported_configs() -> (r: Vec<
    (Option<IosDevice>, Option<XcodeVersion>, Option<OsVersion>),
>)
    ensures
        r@.len() == supported_triples().len(),
        forall|k: int|
            0 <= k < r@.len() ==> #[trigger] r@[k] == (
                Some(supported_triples()[k].0),
                Some(supported_triples()[k].1),
                Some(supported_triples()[k].2),
            ),
{
    let table = supported_table();
    let mut r: Vec<(Option<IosDevice>, Option<XcodeVersion>, Option<OsVersion>)> = Vec::new();
    let n = table.len();
    let mut i: usize = 0;
    while i < n
        invariant
            n == table@.len(),
            table@ == supported_triples(),
            i <= n,
            r@.len() == i,
            forall|k: int|
                0 <= k < i ==> #[trigger] r@[k] == (
                    Some(supported_triples()[k].0),
                    Some(supported_triples()[k].1),
                    Some(supported_triples()[k].2),
                ),
        decreases n - i,
    {
        let entry = table[i];
        r.push((Some(entry.0), Some(entry.1), Some(entry.2)));
        i = i + 1;
    }
    r
}

/// A given parameter agrees with this combination.
pub open spec fn triple_hit(
    c: (IosDevice, XcodeVersion, OsVersion),
    device: Option<IosDevice>,
    xcode_version: Option<XcodeVersion>,
    os_version: Option<OsVersion>,
) -> bool {
    device == Some(c.0) || xcode_version == Some(c.1) || os_version == Some(c.2)
}

/// `v` with `w` filled in where nothing was given.
pub open spec fn filled<T>(v: Option<T>, w: T) -> Option<T> {
    if v is Some {
        v
    } else {
        Some(w)
    }
}

/// Fill missing parameters from the first supported combination that one
/// of the given parameters points at; with no such combination, everything
/// passes through unchanged.
pub fn infer_parameters(
    device: Option<IosDevice>,
    xcode_version: Option<XcodeVersion>,
    os_version: Option<OsVersion>,
) -> (r: (Option<IosDevice>, Option<XcodeVersion>, Option<OsVersion>))
    ensures
        (forall|j: int|
            0 <= j < supported_triples().len() ==> !triple_hit(
                #[trigger] supported_triples()[j],
                device,
                xcode_version,
                os_version,
            )) ==> r == (device, xcode_version, os_version),
        forall|i: int|
            0 <= i < supported_triples().len() && #[trigger] triple_hit(
                supported_triples()[i],
                device,
                xcode_version,
                os_version,
            ) && (forall|j: int|
                0 <= j < i ==> !triple_hit(
                    #[trigger] supported_triples()[j],
                    device,
                    xcode_version,
                    os_version,
                )) ==> r == (
                filled(device, supported_triples()[i].0),
                filled(xcode_version, supported_triples()[i].1),
                filled(os_version, supported_triples()[i].2),
            ),
{
    let table = supported_table();
    let n = table.len();
    let mut i: usize = 0;
    while i < n
        invariant
            n == table@.len(),
            table@ == supported_triples(),
            i <= n,
            forall|j: int|
                0 <= j < i ==> !triple_hit(
                    #[trigger] supported_triples()[j],
                    device,
                    xcode_version,
                    os_version,
                ),
        decreases n - i,
    {
        let row = table[i];
        let device_hit = match &device {
            Some(d) => row.0 == *d,
            None => false,
        };
        let xcode_hit = match &xcode_version {
            Some(x) => row.1 == *x,
            None => false,
        };
        let os_hit = match &os_version {
            Some(o) => row.2 == *o,
            None => false,
        };
        if device_hit || xcode_hit || os_hit {
            let filled_device = match device {
                Some(d) => Some(d),
                None => Some(row.0),
            };
            let filled_xcode = match xcode_version {
                Some(x) => Some(x),
                None => Some(row.1),
            };
            let filled_os = match os_version {
                Some(o) => Some(o),
                None => Some(row.2),
            };
            return (filled_device, filled_xcode, filled_os);
        }
        i = i + 1;
    }
    (device, xcode_version, os_version)
}

} // verus!
