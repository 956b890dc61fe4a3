//! Release names of Ubuntu Linux.
use crate::version::{cmp_u64, version_lt, Version};
use crate::info::os::cmp_nat;
use vstd::prelude::*;
use vstd::std_specs::cmp::PartialOrdSpec;

verus! {

/// The release name of a known Ubuntu version.
#[derive(Clone, Copy, Debug, PartialEq, Eq, Structural, Ord, Hash)]
#[non_exhaustive]
pub enum OsRelease {
    /// Feisty Fawn (Ubuntu 7.04, Linux 2.6.20).
    FeistyFawn,
    /// Gutsy Gibbon (Ubuntu 7.10, Linux 2.6.22).
    GutsyGibbon,
    /// Hardy Heron (Ubuntu 8.04, Linux 2.6.24).
    HardyHeron,
    /// Intrepid Ibex (Ubuntu 8.10, Linux 2.6.27).
    IntrepidIbex,
    /// Jaunty Jackalope (Ubuntu 9.04, Linux 2.6.28).
    JauntyJackalope,
    /// Karmic Koala (Ubuntu 9.10, Linux 2.6.31).
    KarmicKoala,
    /// Lucid Lynx (Ubuntu 10.04, Linux 2.6.32).
    LucidLynx,
    /// Maverick Meerkat (Ubuntu 10.10, Linux 2.6.35).
    MaverickMeerkat,
    /// Natty Narwhal (Ubuntu 11.04, Linux 2.6.38).
    NattyNarwhal,
    /// Oneiric Ocelot (Ubuntu 11.10, Linux 3.0).
    OneiricOcelot,
    /// Precise Pangolin (Ubuntu 12.04, Linux 3.2).
    PrecisePangolin,
    /// Quantal Quetzal (Ubuntu 12.10, Linux 3.5).
    QuantalQuetzal,
    /// Raring Ringtail (Ubuntu 13.04, Linux 3.8).
    RaringRingtail,
    /// Saucy Salamander (Ubuntu 13.10, Linux 3.11).
    SaucySalamander,
    /// Trusty Tahr (Ubuntu 14.04, Linux 3.13).
    TrustyTahr,
    /// Utopic Unicorn (Ubuntu 14.10, Linux 3.16).
    UtopicUnicorn,
    /// Vivid Vervet (Ubuntu 15.04, Linux 3.19).
    VividVervet,
    /// Wily Werewolf (Ubuntu 15.10, Linux 4.2).
    WilyWerewolf,
    /// Xenial Xerus (Ubuntu 16.04, Linux 4.4).
    XenialXerus,
    /// Yakkety Yak (Ubuntu 16.10, Linux 4.8).
    YakketyYak,
    /// Zesty Zapus (Ubuntu 17.04, Linux 4.10).
    ZestyZapus,
    /// Artful Aardvark (Ubuntu 17.10, Linux 4.13).
    ArtfulAardvark,
    /// Bionic Beaver (Ubuntu 18.04, Linux 4.15).
    BionicBeaver,
    /// Cosmic Cuttlefish (Ubuntu 18.10, Linux 4.18).
    CosmicCuttlefish,
}

impl OsRelease {
    /// The minimum supported OS release.
    pub const MIN: OsRelease = OsRelease::FeistyFawn;

    /// The most recent OS release.
    pub const LATEST: OsRelease = OsRelease::CosmicCuttlefish;

    /// The position of the release in order of release, oldest first.
    pub open spec fn ordinal(self) -> nat {
        match self {
            OsRelease::FeistyFawn => 0,
            OsRelease::GutsyGibbon => 1,
            OsRelease::HardyHeron => 2,
            OsRelease::IntrepidIbex => 3,
            OsRelease::JauntyJackalope => 4,
            OsRelease::KarmicKoala => 5,
            OsRelease::LucidLynx => 6,
            OsRelease::MaverickMeerkat => 7,
            OsRelease::NattyNarwhal => 8,
            OsRelease::OneiricOcelot => 9,
            OsRelease::PrecisePangolin => 10,
            OsRelease::QuantalQuetzal => 11,
            OsRelease::RaringRingtail => 12,
            OsRelease::SaucySalamander => 13,
            OsRelease::TrustyTahr => 14,
            OsRelease::UtopicUnicorn => 15,
            OsRelease::VividVervet => 16,
            OsRelease::WilyWerewolf => 17,
            OsRelease::XenialXerus => 18,
            OsRelease::YakketyYak => 19,
            OsRelease::ZestyZapus => 20,
            OsRelease::ArtfulAardvark => 21,
            OsRelease::BionicBeaver => 22,
            OsRelease::CosmicCuttlefish => 23,
        }
    }

    /// The version number of the release.
    pub open spec fn version(self) -> Version {
        match self {
            OsRelease::FeistyFawn => Version { major: 7, minor: 4, patch: 0 },
            OsRelease::GutsyGibbon => Version { major: 7, minor: 10, patch: 0 },
            OsRelease::HardyHeron => Version { major: 8, minor: 4, patch: 0 },
            OsRelease::IntrepidIbex => Version { major: 8, minor: 10, patch: 0 },
            OsRelease::JauntyJackalope => Version { major: 9, minor: 4, patch: 0 },
            OsRelease::KarmicKoala => Version { major: 9, minor: 10, patch: 0 },
            OsRelease::LucidLynx => Version { major: 10, minor: 4, patch: 0 },
            OsRelease::MaverickMeerkat => Version { major: 10, minor: 10, patch: 0 },
            OsRelease::NattyNarwhal => Version { major: 11, minor: 4, patch: 0 },
            OsRelease::OneiricOcelot => Version { major: 11, minor: 10, patch: 0 },
            OsRelease::PrecisePangolin => Version { major: 12, minor: 4, patch: 0 },
            OsRelease::QuantalQuetzal => Version { major: 12, minor: 10, patch: 0 },
            OsRelease::RaringRingtail => Version { major: 13, minor: 4, patch: 0 },
            OsRelease::SaucySalamander => Version { major: 13, minor: 10, patch: 0 },
            OsRelease::TrustyTahr => Version { major: 14, minor: 4, patch: 0 },
            OsRelease::UtopicUnicorn => Version { major: 14, minor: 10, patch: 0 },
            OsRelease::VividVervet => Version { major: 15, minor: 4, patch: 0 },
            OsRelease::WilyWerewolf => Version { major: 15, minor: 10, patch: 0 },
            OsRelease::XenialXerus => Version { major: 16, minor: 4, patch: 0 },
            OsRelease::YakketyYak => Version { major: 16, minor: 10, patch: 0 },
            OsRelease::ZestyZapus => Version { major: 17, minor: 4, patch: 0 },
            OsRelease::ArtfulAardvark => Version { major: 17, minor: 10, patch: 0 },
            OsRelease::BionicBeaver => Version { major: 18, minor: 4, patch: 0 },
            OsRelease::CosmicCuttlefish => Version { major: 18, minor: 10, patch: 0 },
        }
    }

    /// The display name of the release.
    pub open spec fn name(self) -> &'static str {
        match self {
            OsRelease::FeistyFawn => "Feisty Fawn",
            OsRelease::GutsyGibbon => "Gutsy Gibbon",
            OsRelease::HardyHeron => "Hardy Heron",
            OsRelease::IntrepidIbex => "Intrepid Ibex",
            OsRelease::JauntyJackalope => "Jaunty Jackalope",
            OsRelease::KarmicKoala => "Karmic Koala",
            OsRelease::LucidLynx => "Lucid Lynx",
            OsRelease::MaverickMeerkat => "Maverick Meerkat",
            OsRelease::NattyNarwhal => "Natty Narwhal",
            OsRelease::OneiricOcelot => "Oneiric Ocelot",
            OsRelease::PrecisePangolin => "Precise Pangolin",
            OsRelease::QuantalQuetzal => "Quantal Quetzal",
            OsRelease::RaringRingtail => "Raring Ringtail",
            OsRelease::SaucySalamander => "Saucy Salamander",
            OsRelease::TrustyTahr => "Trusty Tahr",
            OsRelease::UtopicUnicorn => "Utopic Unicorn",
            OsRelease::VividVervet => "Vivid Vervet",
            OsRelease::WilyWerewolf => "Wily Werewolf",
            OsRelease::XenialXerus => "Xenial Xerus",
            OsRelease::YakketyYak => "Yakkety Yak",
            OsRelease::ZestyZapus => "Zesty Zapus",
            OsRelease::ArtfulAardvark => "Artful Aardvark",
            OsRelease::BionicBeaver => "Bionic Beaver",
            OsRelease::CosmicCuttlefish => "Cosmic Cuttlefish",
        }
    }

    /// The oldest Linux kernel version that the release ships with.
    pub open spec fn kernel_version(self) -> Version {
        match self {
            OsRelease::FeistyFawn => Version { major: 2, minor: 6, patch: 20 },
            OsRelease::GutsyGibbon => Version { major: 2, minor: 6, patch: 22 },
            OsRelease::HardyHeron => Version { major: 2, minor: 6, patch: 24 },
            OsRelease::IntrepidIbex => Version { major: 2, minor: 6, patch: 27 },
            OsRelease::JauntyJackalope => Version { major: 2, minor: 6, patch: 28 },
            OsRelease::KarmicKoala => Version { major: 2, minor: 6, patch: 31 },
            OsRelease::LucidLynx => Version { major: 2, minor: 6, patch: 32 },
            OsRelease::MaverickMeerkat => Version { major: 2, minor: 6, patch: 35 },
            OsRelease::NattyNarwhal => Version { major: 2, minor: 6, patch: 38 },
            OsRelease::OneiricOcelot => Version { major: 3, minor: 0, patch: 0 },
            OsRelease::PrecisePangolin => Version { major: 3, minor: 2, patch: 0 },
            OsRelease::QuantalQuetzal => Version { major: 3, minor: 5, patch: 0 },
            OsRelease::RaringRingtail => Version { major: 3, minor: 8, patch: 0 },
            OsRelease::SaucySalamander => Version { major: 3, minor: 11, patch: 0 },
            OsRelease::TrustyTahr => Version { major: 3, minor: 13, patch: 0 },
            OsRelease::UtopicUnicorn => Version { major: 3, minor: 16, patch: 0 },
            OsRelease::VividVervet => Version { major: 3, minor: 19, patch: 0 },
            OsRelease::WilyWerewolf => Version { major: 4, minor: 2, patch: 0 },
            OsRelease::XenialXerus => Version { major: 4, minor: 4, patch: 0 },
            OsRelease::YakketyYak => Version { major: 4, minor: 8, patch: 0 },
            OsRelease::ZestyZapus => Version { major: 4, minor: 10, patch: 0 },
            OsRelease::ArtfulAardvark => Version { major: 4, minor: 13, patch: 0 },
            OsRelease::BionicBeaver => Version { major: 4, minor: 15, patch: 0 },
            OsRelease::CosmicCuttlefish => Version { major: 4, minor: 18, patch: 0 },
        }
    }

    /// `self` is the release whose major and minor numbers are those of `v`.
    pub open spec fn named_by(self, v: Version) -> bool {
        self.version().major == v.major && self.version().minor == v.minor
    }

    /// The release that `v` names, if any: only the major and minor numbers
    /// count.
    pub open spec fn from_version(v: Version) -> Option<OsRelease> {
        match (v.major, v.minor) {
            (7, 4) => Some(OsRelease::FeistyFawn),
            (7, 10) => Some(OsRelease::GutsyGibbon),
            (8, 4) => Some(OsRelease::HardyHeron),
            (8, 10) => Some(OsRelease::IntrepidIbex),
            (9, 4) => Some(OsRelease::JauntyJackalope),
            (9, 10) => Some(OsRelease::KarmicKoala),
            (10, 4) => Some(OsRelease::LucidLynx),
            (10, 10) => Some(OsRelease::MaverickMeerkat),
            (11, 4) => Some(OsRelease::NattyNarwhal),
            (11, 10) => Some(OsRelease::OneiricOcelot),
            (12, 4) => Some(OsRelease::PrecisePangolin),
            (12, 10) => Some(OsRelease::QuantalQuetzal),
            (13, 4) => Some(OsRelease::RaringRingtail),
            (13, 10) => Some(OsRelease::SaucySalamander),
            (14, 4) => Some(OsRelease::TrustyTahr),
            (14, 10) => Some(OsRelease::UtopicUnicorn),
            (15, 4) => Some(OsRelease::VividVervet),
            (15, 10) => Some(OsRelease::WilyWerewolf),
            (16, 4) => Some(OsRelease::XenialXerus),
            (16, 10) => Some(OsRelease::YakketyYak),
            (17, 4) => Some(OsRelease::ZestyZapus),
            (17, 10) => Some(OsRelease::ArtfulAardvark),
            (18, 4) => Some(OsRelease::BionicBeaver),
            (18, 10) => Some(OsRelease::CosmicCuttlefish),
            _ => None,
        }
    }

    /// No two releases share a major and minor number.
    pub proof fn lemma_named_by_unique(a: OsRelease, b: OsRelease, v: Version)
        requires
            a.named_by(v),
            b.named_by(v),
        ensures
            a == b,
    {
    }

    /// Every release is found again from its own version number.
    pub proof fn lemma_version_round_trip(r: OsRelease)
        ensures
            Self::from_version(r.version()) == Some(r),
    {
    }

    /// A version names a release exactly when its major and minor numbers are
    /// the release's; any other version names none.
    pub proof fn lemma_from_version_exact(v: Version, r: OsRelease)
        ensures
            Self::from_version(v) == Some(r) <==> r.named_by(v),
            Self::from_version(v) is None <==> forall|q: OsRelease| !q.named_by(v),
    {
        if Self::from_version(v) is None {
            assert forall|q: OsRelease| !q.named_by(v) by {
                Self::lemma_version_round_trip(q);
            }
        } else {
            assert(Self::from_version(v).unwrap().named_by(v));
        }
    }

    /// The order of the releases is the order of their version numbers.
    pub proof fn lemma_order_follows_versions(a: OsRelease, b: OsRelease)
        ensures
            a.ordinal() < b.ordinal() <==> version_lt(a.version(), b.version()),
    {
    }

    /// The most recent release comes after the minimum one.
    pub proof fn lemma_latest_after_min()
        ensures
            Self::MIN.ordinal() < Self::LATEST.ordinal(),
            version_lt(Self::MIN.version(), Self::LATEST.version()),
            Self::LATEST.partial_cmp_spec(&Self::MIN) == Some(core::cmp::Ordering::Greater),
    {
    }

    /// Returns the corresponding release for the Ubuntu version number.
    pub fn new(version: Version) -> (r: Option<OsRelease>)
        ensures
            r == Self::from_version(version),
    {
        match (version.major, version.minor) {
            (7, 4) => Some(OsRelease::FeistyFawn),
            (7, 10) => Some(OsRelease::GutsyGibbon),
            (8, 4) => Some(OsRelease::HardyHeron),
            (8, 10) => Some(OsRelease::IntrepidIbex),
            (9, 4) => Some(OsRelease::JauntyJackalope),
            (9, 10) => Some(OsRelease::KarmicKoala),
            (10, 4) => Some(OsRelease::LucidLynx),
            (10, 10) => Some(OsRelease::MaverickMeerkat),
            (11, 4) => Some(OsRelease::NattyNarwhal),
            (11, 10) => Some(OsRelease::OneiricOcelot),
            (12, 4) => Some(OsRelease::PrecisePangolin),
            (12, 10) => Some(OsRelease::QuantalQuetzal),
            (13, 4) => Some(OsRelease::RaringRingtail),
            (13, 10) => Some(OsRelease::SaucySalamander),
            (14, 4) => Some(OsRelease::TrustyTahr),
            (14, 10) => Some(OsRelease::UtopicUnicorn),
            (15, 4) => Some(OsRelease::VividVervet),
            (15, 10) => Some(OsRelease::WilyWerewolf),
            (16, 4) => Some(OsRelease::XenialXerus),
            (16, 10) => Some(OsRelease::YakketyYak),
            (17, 4) => Some(OsRelease::ZestyZapus),
            (17, 10) => Some(OsRelease::ArtfulAardvark),
            (18, 4) => Some(OsRelease::BionicBeaver),
            (18, 10) => Some(OsRelease::CosmicCuttlefish),
            _ => None,
        }
    }

    fn index(self) -> (r: u64)
        ensures
            r == self.ordinal(),
    {
        match self {
            OsRelease::FeistyFawn => 0,
            OsRelease::GutsyGibbon => 1,
            OsRelease::HardyHeron => 2,
            OsRelease::IntrepidIbex => 3,
            OsRelease::JauntyJackalope => 4,
            OsRelease::KarmicKoala => 5,
            OsRelease::LucidLynx => 6,
            OsRelease::MaverickMeerkat => 7,
            OsRelease::NattyNarwhal => 8,
            OsRelease::OneiricOcelot => 9,
            OsRelease::PrecisePangolin => 10,
            OsRelease::QuantalQuetzal => 11,
            OsRelease::RaringRingtail => 12,
            OsRelease::SaucySalamander => 13,
            OsRelease::TrustyTahr => 14,
            OsRelease::UtopicUnicorn => 15,
            OsRelease::VividVervet => 16,
            OsRelease::WilyWerewolf => 17,
            OsRelease::XenialXerus => 18,
            OsRelease::YakketyYak => 19,
            OsRelease::ZestyZapus => 20,
            OsRelease::ArtfulAardvark => 21,
            OsRelease::BionicBeaver => 22,
            OsRelease::CosmicCuttlefish => 23,
        }
    }

    /// Returns the minimum kernel version for the release.
    pub fn min_kernel_version(self) -> (r: Version)
        ensures
            r == self.kernel_version(),
    {
        match self {
            OsRelease::FeistyFawn => Version { major: 2, minor: 6, patch: 20 },
            OsRelease::GutsyGibbon => Version { major: 2, minor: 6, patch: 22 },
            OsRelease::HardyHeron => Version { major: 2, minor: 6, patch: 24 },
            OsRelease::IntrepidIbex => Version { major: 2, minor: 6, patch: 27 },
            OsRelease::JauntyJackalope => Version { major: 2, minor: 6, patch: 28 },
            OsRelease::KarmicKoala => Version { major: 2, minor: 6, patch: 31 },
            OsRelease::LucidLynx => Version { major: 2, minor: 6, patch: 32 },
            OsRelease::MaverickMeerkat => Version { major: 2, minor: 6, patch: 35 },
            OsRelease::NattyNarwhal => Version { major: 2, minor: 6, patch: 38 },
            OsRelease::OneiricOcelot => Version { major: 3, minor: 0, patch: 0 },
            OsRelease::PrecisePangolin => Version { major: 3, minor: 2, patch: 0 },
            OsRelease::QuantalQuetzal => Version { major: 3, minor: 5, patch: 0 },
            OsRelease::RaringRingtail => Version { major: 3, minor: 8, patch: 0 },
            OsRelease::SaucySalamander => Version { major: 3, minor: 11, patch: 0 },
            OsRelease::TrustyTahr => Version { major: 3, minor: 13, patch: 0 },
            OsRelease::UtopicUnicorn => Version { major: 3, minor: 16, patch: 0 },
            OsRelease::VividVervet => Version { major: 3, minor: 19, patch: 0 },
            OsRelease::WilyWerewolf => Version { major: 4, minor: 2, patch: 0 },
            OsRelease::XenialXerus => Version { major: 4, minor: 4, patch: 0 },
            OsRelease::YakketyYak => Version { major: 4, minor: 8, patch: 0 },
            OsRelease::ZestyZapus => Version { major: 4, minor: 10, patch: 0 },
            OsRelease::ArtfulAardvark => Version { major: 4, minor: 13, patch: 0 },
            OsRelease::BionicBeaver => Version { major: 4, minor: 15, patch: 0 },
            OsRelease::CosmicCuttlefish => Version { major: 4, minor: 18, patch: 0 },
        }
    }
}

impl PartialOrd for OsRelease {
    fn partial_cmp(&self, other: &OsRelease) -> (r: Option<core::cmp::Ordering>)
        ensures
            r == Some(cmp_nat(self.ordinal(), other.ordinal())),
    {
        Some(cmp_u64(self.index(), other.index()))
    }
}

impl vstd::std_specs::cmp::PartialOrdSpecImpl for OsRelease {
    open spec fn obeys_partial_cmp_spec() -> bool {
        true
    }

    open spec fn partial_cmp_spec(&self, other: &OsRelease) -> Option<core::cmp::Ordering> {
        Some(cmp_nat(self.ordinal(), other.ordinal()))
    }
}

impl From<OsRelease> for Version {
    fn from(release: OsRelease) -> (r: Version)
        ensures
            r == release.version(),
    {
        match release {
            OsRelease::FeistyFawn => Version { major: 7, minor: 4, patch: 0 },
            OsRelease::GutsyGibbon => Version { major: 7, minor: 10, patch: 0 },
            OsRelease::HardyHeron => Version { major: 8, minor: 4, patch: 0 },
            OsRelease::IntrepidIbex => Version { major: 8, minor: 10, patch: 0 },
            OsRelease::JauntyJackalope => Version { major: 9, minor: 4, patch: 0 },
            OsRelease::KarmicKoala => Version { major: 9, minor: 10, patch: 0 },
            OsRelease::LucidLynx => Version { major: 10, minor: 4, patch: 0 },
            OsRelease::MaverickMeerkat => Version { major: 10, minor: 10, patch: 0 },
            OsRelease::NattyNarwhal => Version { major: 11, minor: 4, patch: 0 },
            OsRelease::OneiricOcelot => Version { major: 11, minor: 10, patch: 0 },
            OsRelease::PrecisePangolin => Version { major: 12, minor: 4, patch: 0 },
            OsRelease::QuantalQuetzal => Version { major: 12, minor: 10, patch: 0 },
            OsRelease::RaringRingtail => Version { major: 13, minor: 4, patch: 0 },
            OsRelease::SaucySalamander => Version { major: 13, minor: 10, patch: 0 },
            OsRelease::TrustyTahr => Version { major: 14, minor: 4, patch: 0 },
            OsRelease::UtopicUnicorn => Version { major: 14, minor: 10, patch: 0 },
            OsRelease::VividVervet => Version { major: 15, minor: 4, patch: 0 },
            OsRelease::WilyWerewolf => Version { major: 15, minor: 10, patch: 0 },
            OsRelease::XenialXerus => Version { major: 16, minor: 4, patch: 0 },
            OsRelease::YakketyYak => Version { major: 16, minor: 10, patch: 0 },
            OsRelease::ZestyZapus => Version { major: 17, minor: 4, patch: 0 },
            OsRelease::ArtfulAardvark => Version { major: 17, minor: 10, patch: 0 },
            OsRelease::BionicBeaver => Version { major: 18, minor: 4, patch: 0 },
            OsRelease::CosmicCuttlefish => Version { major: 18, minor: 10, patch: 0 },
        }
    }
}

impl vstd::std_specs::convert::FromSpecImpl<OsRelease> for Version {
    open spec fn obeys_from_spec() -> bool {
        true
    }

    open spec fn from_spec(release: OsRelease) -> Version {
        release.version()
    }
}

impl From<OsRelease> for &'static str {
    fn from(release: OsRelease) -> (r: &'static str)
        ensures
            r == release.name(),
    {
        match release {
            OsRelease::FeistyFawn => "Feisty Fawn",
            OsRelease::GutsyGibbon => "Gutsy Gibbon",
            OsRelease::HardyHeron => "Hardy Heron",
            OsRelease::IntrepidIbex => "Intrepid Ibex",
            OsRelease::JauntyJackalope => "Jaunty Jackalope",
            OsRelease::KarmicKoala => "Karmic Koala",
            OsRelease::LucidLynx => "Lucid Lynx",
            OsRelease::MaverickMeerkat => "Maverick Meerkat",
            OsRelease::NattyNarwhal => "Natty Narwhal",
            OsRelease::OneiricOcelot => "Oneiric Ocelot",
            OsRelease::PrecisePangolin => "Precise Pangolin",
            OsRelease::QuantalQuetzal => "Quantal Quetzal",
            OsRelease::RaringRingtail => "Raring Ringtail",
            OsRelease::SaucySalamander => "Saucy Salamander",
            OsRelease::TrustyTahr => "Trusty Tahr",
            OsRelease::UtopicUnicorn => "Utopic Unicorn",
            OsRelease::VividVervet => "Vivid Vervet",
            OsRelease::WilyWerewolf => "Wily Werewolf",
            OsRelease::XenialXerus => "Xenial Xerus",
            OsRelease::YakketyYak => "Yakkety Yak",
            OsRelease::ZestyZapus => "Zesty Zapus",
            OsRelease::ArtfulAardvark => "Artful Aardvark",
            OsRelease::BionicBeaver => "Bionic Beaver",
            OsRelease::CosmicCuttlefish => "Cosmic Cuttlefish",
        }
    }
}

impl vstd::std_specs::convert::FromSpecImpl<OsRelease> for &'static str {
    open spec fn obeys_from_spec() -> bool {
        true
    }

    open spec fn from_spec(release: OsRelease) -> &'static str {
        release.name()
    }
}

} // verus!
