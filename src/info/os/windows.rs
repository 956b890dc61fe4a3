//! Release names of Microsoft Windows.
use crate::version::{cmp_u64, version_lt, Version};
use crate::info::os::cmp_nat;
use vstd::prelude::*;
use vstd::std_specs::cmp::PartialOrdSpec;

verus! {

/// The release name of a known Windows version.
#[derive(Clone, Copy, Debug, PartialEq, Eq, Structural, Ord, Hash)]
#[non_exhaustive]
pub enum OsRelease {
    /// Windows 7, the minimum version supported by Rust.
    Windows7,
    /// Windows 8.
    Windows8,
    /// Windows 8.1.
    Windows8_1,
    /// Windows 10.
    Windows10,
}

impl OsRelease {
    /// The minimum supported OS release.
    pub const MIN: OsRelease = OsRelease::Windows7;

    /// The most recent OS release.
    pub const LATEST: OsRelease = OsRelease::Windows10;

    /// The position of the release in order of release, oldest first.
    pub open spec fn ordinal(self) -> nat {
        match self {
            OsRelease::Windows7 => 0,
            OsRelease::Windows8 => 1,
            OsRelease::Windows8_1 => 2,
            OsRelease::Windows10 => 3,
        }
    }

    /// The version number of the release.
    pub open spec fn version(self) -> Version {
        match self {
            OsRelease::Windows7 => Version { major: 6, minor: 1, patch: 0 },
            OsRelease::Windows8 => Version { major: 6, minor: 2, patch: 0 },
            OsRelease::Windows8_1 => Version { major: 6, minor: 3, patch: 0 },
            OsRelease::Windows10 => Version { major: 10, minor: 0, patch: 0 },
        }
    }

    /// The display name of the release.
    pub open spec fn name(self) -> &'static str {
        match self {
            OsRelease::Windows7 => "7",
            OsRelease::Windows8 => "8",
            OsRelease::Windows8_1 => "8.1",
            OsRelease::Windows10 => "10",
        }
    }

    /// `self` is the release whose major and minor numbers are those of `v`.
    pub open spec fn named_by(self, v: Version) -> bool {
        self.version().major == v.major && self.version().minor == v.minor
    }

    /// The release that `v` names, if any: only the major and minor numbers
    /// count.
    pub open spec fn from_version(v: Version) -> Option<OsRelease> {
        match (v.major, v.minor) {
            (6, 1) => Some(OsRelease::Windows7),
            (6, 2) => Some(OsRelease::Windows8),
            (6, 3) => Some(OsRelease::Windows8_1),
            (10, 0) => Some(OsRelease::Windows10),
            _ => None,
        }
    }

    /// No two releases share a major and minor number.
    pub proof fn lemma_named_by_unique(a: OsRelease, b: OsRelease, v: Version)
        requires
            a.named_by(v),
            b.named_by(v),
        ensures
            a == b,
    {
    }

    /// Every release is found again from its own version number.
    pub proof fn lemma_version_round_trip(r: OsRelease)
        ensures
            Self::from_version(r.version()) == Some(r),
    {
    }

    /// A version names a release exactly when its major and minor numbers are
    /// the release's; any other version names none.
    pub proof fn lemma_from_version_exact(v: Version, r: OsRelease)
        ensures
            Self::from_version(v) == Some(r) <==> r.named_by(v),
            Self::from_version(v) is None <==> forall|q: OsRelease| !q.named_by(v),
    {
        if Self::from_version(v) is None {
            assert forall|q: OsRelease| !q.named_by(v) by {
                Self::lemma_version_round_trip(q);
            }
        } else {
            assert(Self::from_version(v).unwrap().named_by(v));
        }
    }

    /// The order of the releases is the order of their version numbers.
    pub proof fn lemma_order_follows_versions(a: OsRelease, b: OsRelease)
        ensures
            a.ordinal() < b.ordinal() <==> version_lt(a.version(), b.version()),
    {
    }

    /// The most recent release comes after the minimum one.
    pub proof fn lemma_latest_after_min()
        ensures
            Self::MIN.ordinal() < Self::LATEST.ordinal(),
            version_lt(Self::MIN.version(), Self::LATEST.version()),
            Self::LATEST.partial_cmp_spec(&Self::MIN) == Some(core::cmp::Ordering::Greater),
    {
    }

    /// Returns the corresponding release for the Windows version number.
    pub fn new(version: Version) -> (r: Option<OsRelease>)
        ensures
            r == Self::from_version(version),
    {
        match (version.major, version.minor) {
            (6, 1) => Some(OsRelease::Windows7),
            (6, 2) => Some(OsRelease::Windows8),
            (6, 3) => Some(OsRelease::Windows8_1),
            (10, 0) => Some(OsRelease::Windows10),
            _ => None,
        }
    }

    fn index(self) -> (r: u64)
        ensures
            r == self.ordinal(),
    {
        match self {
            OsRelease::Windows7 => 0,
            OsRelease::Windows8 => 1,
            OsRelease::Windows8_1 => 2,
            OsRelease::Windows10 => 3,
        }
    }

}

impl PartialOrd for OsRelease {
    fn partial_cmp(&self, other: &OsRelease) -> (r: Option<core::cmp::Ordering>)
        ensures
            r == Some(cmp_nat(self.ordinal(), other.ordinal())),
    {
        Some(cmp_u64(self.index(), other.index()))
    }
}

impl vstd::std_specs::cmp::PartialOrdSpecImpl for OsRelease {
    open spec fn obeys_partial_cmp_spec() -> bool {
        true
    }

    open spec fn partial_cmp_spec(&self, other: &OsRelease) -> Option<core::cmp::Ordering> {
        Some(cmp_nat(self.ordinal(), other.ordinal()))
    }
}

impl From<OsRelease> for Version {
    fn from(release: OsRelease) -> (r: Version)
        ensures
            r == release.version(),
    {
        match release {
            OsRelease::Windows7 => Version { major: 6, minor: 1, patch: 0 },
            OsRelease::Windows8 => Version { major: 6, minor: 2, patch: 0 },
            OsRelease::Windows8_1 => Version { major: 6, minor: 3, patch: 0 },
            OsRelease::Windows10 => Version { major: 10, minor: 0, patch: 0 },
        }
    }
}

impl vstd::std_specs::convert::FromSpecImpl<OsRelease> for Version {
    open spec fn obeys_from_spec() -> bool {
        true
    }

    open spec fn from_spec(release: OsRelease) -> Version {
        release.version()
    }
}

impl From<OsRelease> for &'static str {
    fn from(release: OsRelease) -> (r: &'static str)
        ensures
            r == release.name(),
    {
        match release {
            OsRelease::Windows7 => "7",
            OsRelease::Windows8 => "8",
            OsRelease::Windows8_1 => "8.1",
            OsRelease::Windows10 => "10",
        }
    }
}

impl vstd::std_specs::convert::FromSpecImpl<OsRelease> for &'static str {
    open spec fn obeys_from_spec() -> bool {
        true
    }

    open spec fn from_spec(release: OsRelease) -> &'static str {
        release.name()
    }
}

} // verus!
