//! Release names of Debian Linux.
use crate::version::{cmp_u64, version_lt, Version};
use crate::info::os::cmp_nat;
use vstd::prelude::*;
use vstd::std_specs::cmp::PartialOrdSpec;

verus! {

/// The release name of a known Debian version.
#[derive(Clone, Copy, Debug, PartialEq, Eq, Structural, Ord, Hash)]
#[non_exhaustive]
pub enum OsRelease {
    /// Buzz (Debian 1.1).
    Buzz,
    /// Rex (Debian 1.2).
    Rex,
    /// Bo (Debian 1.3).
    Bo,
    /// Hamm (Debian 2.0).
    Hamm,
    /// Slink (Debian 2.1).
    Slink,
    /// Potato (Debian 2.2).
    Potato,
    /// Woody (Debian 3.0).
    Woody,
    /// Sarge (Debian 3.1).
    Sarge,
    /// Etch (Debian 4.0).
    Etch,
    /// Lenny (Debian 5.0).
    Lenny,
    /// Squeeze (Debian 6.0).
    Squeeze,
    /// Wheezy (Debian 7.0).
    Wheezy,
    /// Jessie (Debian 8.0).
    Jessie,
    /// Stretch (Debian 9.0).
    Stretch,
}

impl OsRelease {
    /// The minimum supported OS release.
    pub const MIN: OsRelease = OsRelease::Buzz;

    /// The most recent OS release.
    pub const LATEST: OsRelease = OsRelease::Stretch;

    /// The position of the release in order of release, oldest first.
    pub open spec fn ordinal(self) -> nat {
        match self {
            OsRelease::Buzz => 0,
            OsRelease::Rex => 1,
            OsRelease::Bo => 2,
            OsRelease::Hamm => 3,
            OsRelease::Slink => 4,
            OsRelease::Potato => 5,
            OsRelease::Woody => 6,
            OsRelease::Sarge => 7,
            OsRelease::Etch => 8,
            OsRelease::Lenny => 9,
            OsRelease::Squeeze => 10,
            OsRelease::Wheezy => 11,
            OsRelease::Jessie => 12,
            OsRelease::Stretch => 13,
        }
    }

    /// The version number of the release.
    pub open spec fn version(self) -> Version {
        match self {
            OsRelease::Buzz => Version { major: 1, minor: 1, patch: 0 },
            OsRelease::Rex => Version { major: 1, minor: 2, patch: 0 },
            OsRelease::Bo => Version { major: 1, minor: 3, patch: 0 },
            OsRelease::Hamm => Version { major: 2, minor: 0, patch: 0 },
            OsRelease::Slink => Version { major: 2, minor: 1, patch: 0 },
            OsRelease::Potato => Version { major: 2, minor: 2, patch: 0 },
            OsRelease::Woody => Version { major: 3, minor: 0, patch: 0 },
            OsRelease::Sarge => Version { major: 3, minor: 1, patch: 0 },
            OsRelease::Etch => Version { major: 4, minor: 0, patch: 0 },
            OsRelease::Lenny => Version { major: 5, minor: 0, patch: 0 },
            OsRelease::Squeeze => Version { major: 6, minor: 0, patch: 0 },
            OsRelease::Wheezy => Version { major: 7, minor: 0, patch: 0 },
            OsRelease::Jessie => Version { major: 8, minor: 0, patch: 0 },
            OsRelease::Stretch => Version { major: 9, minor: 0, patch: 0 },
        }
    }

    /// The display name of the release.
    pub open spec fn name(self) -> &'static str {
        match self {
            OsRelease::Buzz => "Buzz",
            OsRelease::Rex => "Rex",
            OsRelease::Bo => "Bo",
            OsRelease::Hamm => "Hamm",
            OsRelease::Slink => "Slink",
            OsRelease::Potato => "Potato",
            OsRelease::Woody => "Woody",
            OsRelease::Sarge => "Sarge",
            OsRelease::Etch => "Etch",
            OsRelease::Lenny => "Lenny",
            OsRelease::Squeeze => "Squeeze",
            OsRelease::Wheezy => "Wheezy",
            OsRelease::Jessie => "Jessie",
            OsRelease::Stretch => "Stretch",
        }
    }

    /// `self` is the release whose major and minor numbers are those of `v`.
    pub open spec fn named_by(self, v: Version) -> bool {
        self.version().major == v.major && self.version().minor == v.minor
    }

    /// The release that `v` names, if any: only the major and minor numbers
    /// count.
    pub open spec fn from_version(v: Version) -> Option<OsRelease> {
        match (v.major, v.minor) {
            (1, 1) => Some(OsRelease::Buzz),
            (1, 2) => Some(OsRelease::Rex),
            (1, 3) => Some(OsRelease::Bo),
            (2, 0) => Some(OsRelease::Hamm),
            (2, 1) => Some(OsRelease::Slink),
            (2, 2) => Some(OsRelease::Potato),
            (3, 0) => Some(OsRelease::Woody),
            (3, 1) => Some(OsRelease::Sarge),
            (4, 0) => Some(OsRelease::Etch),
            (5, 0) => Some(OsRelease::Lenny),
            (6, 0) => Some(OsRelease::Squeeze),
            (7, 0) => Some(OsRelease::Wheezy),
            (8, 0) => Some(OsRelease::Jessie),
            (9, 0) => Some(OsRelease::Stretch),
            _ => None,
        }
    }

    /// No two releases share a major and minor number.
    pub proof fn lemma_named_by_unique(a: OsRelease, b: OsRelease, v: Version)
        requires
            a.named_by(v),
            b.named_by(v),
        ensures
            a == b,
    {
    }

    /// Every release is found again from its own version number.
    pub proof fn lemma_version_round_trip(r: OsRelease)
        ensures
            Self::from_version(r.version()) == Some(r),
    {
    }

    /// A version names a release exactly when its major and minor numbers are
    /// the release's; any other version names none.
    pub proof fn lemma_from_version_exact(v: Version, r: OsRelease)
        ensures
            Self::from_version(v) == Some(r) <==> r.named_by(v),
            Self::from_version(v) is None <==> forall|q: OsRelease| !q.named_by(v),
    {
        if Self::from_version(v) is None {
            assert forall|q: OsRelease| !q.named_by(v) by {
                Self::lemma_version_round_trip(q);
            }
        } else {
            assert(Self::from_version(v).unwrap().named_by(v));
        }
    }

    /// The order of the releases is the order of their version numbers.
    pub proof fn lemma_order_follows_versions(a: OsRelease, b: OsRelease)
        ensures
            a.ordinal() < b.ordinal() <==> version_lt(a.version(), b.version()),
    {
    }

    /// The most recent release comes after the minimum one.
    pub proof fn lemma_latest_after_min()
        ensures
            Self::MIN.ordinal() < Self::LATEST.ordinal(),
            version_lt(Self::MIN.version(), Self::LATEST.version()),
            Self::LATEST.partial_cmp_spec(&Self::MIN) == Some(core::cmp::Ordering::Greater),
    {
    }

    /// Returns the corresponding release for the Debian version number.
    pub fn new(version: Version) -> (r: Option<OsRelease>)
        ensures
            r == Self::from_version(version),
    {
        match (version.major, version.minor) {
            (1, 1) => Some(OsRelease::Buzz),
            (1, 2) => Some(OsRelease::Rex),
            (1, 3) => Some(OsRelease::Bo),
            (2, 0) => Some(OsRelease::Hamm),
            (2, 1) => Some(OsRelease::Slink),
            (2, 2) => Some(OsRelease::Potato),
            (3, 0) => Some(OsRelease::Woody),
            (3, 1) => Some(OsRelease::Sarge),
            (4, 0) => Some(OsRelease::Etch),
            (5, 0) => Some(OsRelease::Lenny),
            (6, 0) => Some(OsRelease::Squeeze),
            (7, 0) => Some(OsRelease::Wheezy),
            (8, 0) => Some(OsRelease::Jessie),
            (9, 0) => Some(OsRelease::Stretch),
            _ => None,
        }
    }

    fn index(self) -> (r: u64)
        ensures
            r == self.ordinal(),
    {
        match self {
            OsRelease::Buzz => 0,
            OsRelease::Rex => 1,
            OsRelease::Bo => 2,
            OsRelease::Hamm => 3,
            OsRelease::Slink => 4,
            OsRelease::Potato => 5,
            OsRelease::Woody => 6,
            OsRelease::Sarge => 7,
            OsRelease::Etch => 8,
            OsRelease::Lenny => 9,
            OsRelease::Squeeze => 10,
            OsRelease::Wheezy => 11,
            OsRelease::Jessie => 12,
            OsRelease::Stretch => 13,
        }
    }

}

impl PartialOrd for OsRelease {
    fn partial_cmp(&self, other: &OsRelease) -> (r: Option<core::cmp::Ordering>)
        ensures
            r == Some(cmp_nat(self.ordinal(), other.ordinal())),
    {
        Some(cmp_u64(self.index(), other.index()))
    }
}

impl vstd::std_specs::cmp::PartialOrdSpecImpl for OsRelease {
    open spec fn obeys_partial_cmp_spec() -> bool {
        true
    }

    open spec fn partial_cmp_spec(&self, other: &OsRelease) -> Option<core::cmp::Ordering> {
        Some(cmp_nat(self.ordinal(), other.ordinal()))
    }
}

impl From<OsRelease> for Version {
    fn from(release: OsRelease) -> (r: Version)
        ensures
            r == release.version(),
    {
        match release {
            OsRelease::Buzz => Version { major: 1, minor: 1, patch: 0 },
            OsRelease::Rex => Version { major: 1, minor: 2, patch: 0 },
            OsRelease::Bo => Version { major: 1, minor: 3, patch: 0 },
            OsRelease::Hamm => Version { major: 2, minor: 0, patch: 0 },
            OsRelease::Slink => Version { major: 2, minor: 1, patch: 0 },
            OsRelease::Potato => Version { major: 2, minor: 2, patch: 0 },
            OsRelease::Woody => Version { major: 3, minor: 0, patch: 0 },
            OsRelease::Sarge => Version { major: 3, minor: 1, patch: 0 },
            OsRelease::Etch => Version { major: 4, minor: 0, patch: 0 },
            OsRelease::Lenny => Version { major: 5, minor: 0, patch: 0 },
            OsRelease::Squeeze => Version { major: 6, minor: 0, patch: 0 },
            OsRelease::Wheezy => Version { major: 7, minor: 0, patch: 0 },
            OsRelease::Jessie => Version { major: 8, minor: 0, patch: 0 },
            OsRelease::Stretch => Version { major: 9, minor: 0, patch: 0 },
        }
    }
}

impl vstd::std_specs::convert::FromSpecImpl<OsRelease> for Version {
    open spec fn obeys_from_spec() -> bool {
        true
    }

    open spec fn from_spec(release: OsRelease) -> Version {
        release.version()
    }
}

impl From<OsRelease> for &'static str {
    fn from(release: OsRelease) -> (r: &'static str)
        ensures
            r == release.name(),
    {
        match release {
            OsRelease::Buzz => "Buzz",
            OsRelease::Rex => "Rex",
            OsRelease::Bo => "Bo",
            OsRelease::Hamm => "Hamm",
            OsRelease::Slink => "Slink",
            OsRelease::Potato => "Potato",
            OsRelease::Woody => "Woody",
            OsRelease::Sarge => "Sarge",
            OsRelease::Etch => "Etch",
            OsRelease::Lenny => "Lenny",
            OsRelease::Squeeze => "Squeeze",
            OsRelease::Wheezy => "Wheezy",
            OsRelease::Jessie => "Jessie",
            OsRelease::Stretch => "Stretch",
        }
    }
}

impl vstd::std_specs::convert::FromSpecImpl<OsRelease> for &'static str {
    open spec fn obeys_from_spec() -> bool {
        true
    }

    open spec fn from_spec(release: OsRelease) -> &'static str {
        release.name()
    }
}

} // verus!
