//! The running system's version and the capability tiers derived from it.
use vstd::prelude::*;

verus! {

/// First build of Windows 10 version 1809, the oldest that takes acrylic.
pub const WIN10_1809_BUILD: u32 = 17763;

/// First build of Windows 11.
pub const WIN11_BUILD: u32 = 22000;

/// First Windows 11 build with the documented system backdrop attribute.
pub const WIN11_BACKDROP_BUILD: u32 = 22523;

/// The version that the running system reports: major, minor and build number.
#[derive(Clone, Copy, Debug, PartialEq, Eq, Structural)]
pub struct OsVersion {
    pub major: u32,
    pub minor: u32,
    pub build: u32,
}

/// Windows 7: major 6, minor 1.
pub open spec fn win7(v: OsVersion) -> bool {
    v.major == 6 && v.minor == 1
}

/// Windows 10 from version 1809 up to, not including, Windows 11.
pub open spec fn supported_win10(v: OsVersion) -> bool {
    WIN10_1809_BUILD <= v.build && v.build < WIN11_BUILD
}

/// Any Windows 11 build.
pub open spec fn win11(v: OsVersion) -> bool {
    v.build >= WIN11_BUILD
}

/// A Windows 11 build that offers the documented system backdrop attribute.
pub open spec fn win11_backdrop_capable(v: OsVersion) -> bool {
    v.build >= WIN11_BACKDROP_BUILD
}

impl OsVersion {
    /// The version assumed when the system's version cannot be read: 0.0.0,
    /// which falls in none of the tiers.
    pub fn unknown() -> (r: OsVersion)
        ensures
            r == (OsVersion { major: 0, minor: 0, build: 0 }),
    {
        OsVersion { major: 0, minor: 0, build: 0 }
    }

    /// The version from what the system's version query reported: its status
    /// code and the three numbers it filled in. A negative status is a failure.
    pub fn from_report(status: i32, major: u32, minor: u32, build: u32) -> (r: Option<OsVersion>)
        ensures
            status >= 0 ==> r == Some(OsVersion { major, minor, build }),
            status < 0 ==> r is None,
    {
        if status >= 0 {
            Some(OsVersion { major, minor, build })
        } else {
            None
        }
    }

    /// The version to classify: the one read, or 0.0.0 when none could be read.
    pub fn or_unknown(read: Option<OsVersion>) -> (r: OsVersion)
        ensures
            r == (match read {
                Some(v) => v,
                None => OsVersion { major: 0, minor: 0, build: 0 },
            }),
    {
        match read {
            Some(v) => v,
            None => OsVersion::unknown(),
        }
    }
}

/// Whether the system is Windows 7.
pub fn is_win7(v: OsVersion) -> (r: bool)
    ensures
        r == win7(v),
{
    v.major == 6 && v.minor == 1
}

/// Whether the system is Windows 10 version 1809 or later, before Windows 11.
pub fn is_supported_win10(v: OsVersion) -> (r: bool)
    ensures
        r == supported_win10(v),
{
    v.build >= WIN10_1809_BUILD && v.build < WIN11_BUILD
}

/// Whether the system is Windows 11.
pub fn is_win11(v: OsVersion) -> (r: bool)
    ensures
        r == win11(v),
{
    v.build >= WIN11_BUILD
}

/// Whether the system is a Windows 11 build with the documented system
/// backdrop attribute.
pub fn is_win11_dwmsbt(v: OsVersion) -> (r: bool)
    ensures
        r == win11_backdrop_capable(v),
{
    v.build >= WIN11_BACKDROP_BUILD
}

/// Classification reads nothing but the three numbers: two versions with the
/// same major, minor and build number fall in the same tiers.
pub proof fn lemma_classification_depends_on_numbers_only(a: OsVersion, b: OsVersion)
    requires
        a.major == b.major,
        a.minor == b.minor,
        a.build == b.build,
    ensures
        win7(a) == win7(b),
        supported_win10(a) == supported_win10(b),
        win11(a) == win11(b),
        win11_backdrop_capable(a) == win11_backdrop_capable(b),
{
}

} // verus!
