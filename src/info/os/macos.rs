//! Release names of Apple macOS.
use crate::version::{cmp_u64, version_lt, Version};
use crate::info::os::cmp_nat;
use vstd::prelude::*;
use vstd::std_specs::cmp::PartialOrdSpec;

verus! {

/// The minor version number of the minimum supported release, Lion.
pub const MIN_MINOR_VERSION: u64 = 7;

/// The minor version number of the most recent known release.
pub const MAX_MINOR_VERSION: u64 = 14;

/// The release name of a known macOS version.
#[derive(Clone, Copy, Debug, PartialEq, Eq, Structural, Ord, Hash)]
#[non_exhaustive]
pub enum OsRelease {
    /// macOS 10.7, the minimum version supported by Rust.
    Lion,
    /// macOS 10.8.
    MountainLion,
    /// macOS 10.9.
    Mavericks,
    /// macOS 10.10, the first that reports its version through `operatingSystemVersion`.
    Yosemite,
    /// macOS 10.11.
    ElCapitan,
    /// macOS 10.12.
    Sierra,
    /// macOS 10.13.
    HighSierra,
    /// macOS 10.14.
    Mojave,
}

impl OsRelease {
    /// The minimum supported OS release.
    pub const MIN: OsRelease = OsRelease::Lion;

    /// The most recent OS release.
    pub const LATEST: OsRelease = OsRelease::Mojave;

    /// The position of the release in order of release, oldest first.
    pub open spec fn ordinal(self) -> nat {
        match self {
            OsRelease::Lion => 0,
            OsRelease::MountainLion => 1,
            OsRelease::Mavericks => 2,
            OsRelease::Yosemite => 3,
            OsRelease::ElCapitan => 4,
            OsRelease::Sierra => 5,
            OsRelease::HighSierra => 6,
            OsRelease::Mojave => 7,
        }
    }

    /// The version number of the release.
    pub open spec fn version(self) -> Version {
        Version { major: 10, minor: (MIN_MINOR_VERSION + self.ordinal()) as u64, patch: 0 }
    }

    /// The display name of the release.
    pub open spec fn name(self) -> &'static str {
        match self {
            OsRelease::Lion => "Lion",
            OsRelease::MountainLion => "Mountain Lion",
            OsRelease::Mavericks => "Mavericks",
            OsRelease::Yosemite => "Yosemite",
            OsRelease::ElCapitan => "El Capitan",
            OsRelease::Sierra => "Sierra",
            OsRelease::HighSierra => "High Sierra",
            OsRelease::Mojave => "Mojave",
        }
    }

    /// `self` is the release whose major and minor numbers are those of `v`.
    pub open spec fn named_by(self, v: Version) -> bool {
        self.version().major == v.major && self.version().minor == v.minor
    }

    /// The release that `v` names, if any: only the major and minor numbers
    /// count.
    pub open spec fn from_version(v: Version) -> Option<OsRelease> {
        if v.major == 10 && MIN_MINOR_VERSION <= v.minor <= MAX_MINOR_VERSION {
            Some(Self::at_ordinal((v.minor - MIN_MINOR_VERSION) as nat))
        } else {
            None
        }
    }

    /// The release at position `i` in order of release, oldest first; the
    /// most recent one past the end.
    pub open spec fn at_ordinal(i: nat) -> OsRelease {
        if i == 0 {
            OsRelease::Lion
        } else if i == 1 {
            OsRelease::MountainLion
        } else if i == 2 {
            OsRelease::Mavericks
        } else if i == 3 {
            OsRelease::Yosemite
        } else if i == 4 {
            OsRelease::ElCapitan
        } else if i == 5 {
            OsRelease::Sierra
        } else if i == 6 {
            OsRelease::HighSierra
        } else {
            OsRelease::Mojave
        }
    }

    /// No two releases share a major and minor number.
    pub proof fn lemma_named_by_unique(a: OsRelease, b: OsRelease, v: Version)
        requires
            a.named_by(v),
            b.named_by(v),
        ensures
            a == b,
    {
    }

    /// The known minor version numbers run from the minimum release to the
    /// most recent one.
    pub proof fn lemma_minor_range()
        ensures
            Self::MIN.version().minor == MIN_MINOR_VERSION,
            Self::LATEST.version().minor == MAX_MINOR_VERSION,
            forall|r: OsRelease|
                MIN_MINOR_VERSION <= #[trigger] r.version().minor <= MAX_MINOR_VERSION,
    {
    }

    /// Every release is found again from its own version number.
    pub proof fn lemma_version_round_trip(r: OsRelease)
        ensures
            Self::from_version(r.version()) == Some(r),
    {
    }

    /// A version names a release exactly when its major and minor numbers are
    /// the release's; any other version names none.
    pub proof fn lemma_from_version_exact(v: Version, r: OsRelease)
        ensures
            Self::from_version(v) == Some(r) <==> r.named_by(v),
            Self::from_version(v) is None <==> forall|q: OsRelease| !q.named_by(v),
    {
        if Self::from_version(v) is None {
            assert forall|q: OsRelease| !q.named_by(v) by {
                Self::lemma_version_round_trip(q);
            }
        } else {
            assert(Self::from_version(v).unwrap().named_by(v));
        }
    }

    /// The order of the releases is the order of their version numbers.
    pub proof fn lemma_order_follows_versions(a: OsRelease, b: OsRelease)
        ensures
            a.ordinal() < b.ordinal() <==> version_lt(a.version(), b.version()),
    {
    }

    /// The most recent release comes after the minimum one.
    pub proof fn lemma_latest_after_min()
        ensures
            Self::MIN.ordinal() < Self::LATEST.ordinal(),
            version_lt(Self::MIN.version(), Self::LATEST.version()),
            Self::LATEST.partial_cmp_spec(&Self::MIN) == Some(core::cmp::Ordering::Greater),
    {
    }

    /// Returns the corresponding release for the macOS version number.
    pub fn new(version: Version) -> (r: Option<OsRelease>)
        ensures
            r == Self::from_version(version),
    {
        if version.major == 10 && MIN_MINOR_VERSION <= version.minor && version.minor
            <= MAX_MINOR_VERSION {
            Some(Self::from_ordinal(version.minor - MIN_MINOR_VERSION))
        } else {
            None
        }
    }

    fn from_ordinal(i: u64) -> (r: OsRelease)
        requires
            i <= MAX_MINOR_VERSION - MIN_MINOR_VERSION,
        ensures
            r.ordinal() == i,
    {
        match i {
            0 => OsRelease::Lion,
            1 => OsRelease::MountainLion,
            2 => OsRelease::Mavericks,
            3 => OsRelease::Yosemite,
            4 => OsRelease::ElCapitan,
            5 => OsRelease::Sierra,
            6 => OsRelease::HighSierra,
            _ => OsRelease::Mojave,
        }
    }

    fn index(self) -> (r: u64)
        ensures
            r == self.ordinal(),
    {
        match self {
            OsRelease::Lion => 0,
            OsRelease::MountainLion => 1,
            OsRelease::Mavericks => 2,
            OsRelease::Yosemite => 3,
            OsRelease::ElCapitan => 4,
            OsRelease::Sierra => 5,
            OsRelease::HighSierra => 6,
            OsRelease::Mojave => 7,
        }
    }

}

impl PartialOrd for OsRelease {
    fn partial_cmp(&self, other: &OsRelease) -> (r: Option<core::cmp::Ordering>)
        ensures
            r == Some(cmp_nat(self.ordinal(), other.ordinal())),
    {
        Some(cmp_u64(self.index(), other.index()))
    }
}

impl vstd::std_specs::cmp::PartialOrdSpecImpl for OsRelease {
    open spec fn obeys_partial_cmp_spec() -> bool {
        true
    }

    open spec fn partial_cmp_spec(&self, other: &OsRelease) -> Option<core::cmp::Ordering> {
        Some(cmp_nat(self.ordinal(), other.ordinal()))
    }
}

impl From<OsRelease> for Version {
    fn from(release: OsRelease) -> (r: Version)
        ensures
            r == release.version(),
    {
        Version { major: 10, minor: MIN_MINOR_VERSION + release.index(), patch: 0 }
    }
}

impl vstd::std_specs::convert::FromSpecImpl<OsRelease> for Version {
    open spec fn obeys_from_spec() -> bool {
        true
    }

    open spec fn from_spec(release: OsRelease) -> Version {
        release.version()
    }
}

impl From<OsRelease> for &'static str {
    fn from(release: OsRelease) -> (r: &'static str)
        ensures
            r == release.name(),
    {
        match release {
            OsRelease::Lion => "Lion",
            OsRelease::MountainLion => "Mountain Lion",
            OsRelease::Mavericks => "Mavericks",
            OsRelease::Yosemite => "Yosemite",
            OsRelease::ElCapitan => "El Capitan",
            OsRelease::Sierra => "Sierra",
            OsRelease::HighSierra => "High Sierra",
            OsRelease::Mojave => "Mojave",
        }
    }
}

impl vstd::std_specs::convert::FromSpecImpl<OsRelease> for &'static str {
    open spec fn obeys_from_spec() -> bool {
        true
    }

    open spec fn from_spec(release: OsRelease) -> &'static str {
        release.name()
    }
}

} // verus!
