//! Utilities for querying OS information, such as version, name, and other
//! things.
use crate::info::os::linux::{debian, ubuntu};
use crate::info::os::{macos, windows};
use crate::version::OsVersion;
use vstd::prelude::*;

pub mod os;

verus! {

/// The operating system family that a host runs, as its platform query
/// found it.
#[derive(Clone, Copy, Debug, PartialEq, Eq, Structural, Hash)]
pub enum Platform {
    /// Apple macOS.
    MacOs,
    /// Microsoft Windows.
    Windows,
    /// Debian Linux.
    Debian,
    /// Ubuntu Linux.
    Ubuntu,
    /// Some other Linux distribution.
    UnknownLinux,
}

/// Metadata for a specific operating system.
///
/// Information for each OS in non-exhaustive. Fields may be added later and it
/// won't be considered breaking backwards compatibility.
#[derive(Clone, Copy, Debug, PartialEq, Eq, Structural)]
pub enum OsMeta {
    /// Apple macOS.
    MacOs {
        /// The macOS release name, if known.
        release: Option<macos::OsRelease>,
    },
    /// Microsoft Windows.
    Windows {
        /// The Windows release name, if known.
        release: Option<windows::OsRelease>,
    },
    /// Debian Linux.
    Debian {
        /// The Debian release name, if known.
        release: Option<debian::OsRelease>,
    },
    /// Ubuntu Linux.
    Ubuntu {
        /// The Ubuntu release name, if known.
        release: Option<ubuntu::OsRelease>,
    },
    /// Some unknown Linux operating system.
    UnknownLinux {},
}

/// The release that a version names in the macOS table, if any.
pub open spec fn macos_release(version: Option<OsVersion>) -> Option<macos::OsRelease> {
    match version {
        Some(v) => macos::OsRelease::from_version(v.spec_version()),
        None => None,
    }
}

/// The release that a version names in the Windows table, if any.
pub open spec fn windows_release(version: Option<OsVersion>) -> Option<windows::OsRelease> {
    match version {
        Some(v) => windows::OsRelease::from_version(v.spec_version()),
        None => None,
    }
}

/// The release that a version names in the Debian table, if any.
pub open spec fn debian_release(version: Option<OsVersion>) -> Option<debian::OsRelease> {
    match version {
        Some(v) => debian::OsRelease::from_version(v.spec_version()),
        None => None,
    }
}

/// The release that a version names in the Ubuntu table, if any.
pub open spec fn ubuntu_release(version: Option<OsVersion>) -> Option<ubuntu::OsRelease> {
    match version {
        Some(v) => ubuntu::OsRelease::from_version(v.spec_version()),
        None => None,
    }
}

/// The name of a release, where there is one.
pub open spec fn name_of<R>(release: Option<R>, name: spec_fn(R) -> &'static str) -> Option<
    &'static str,
> {
    match release {
        Some(r) => Some(name(r)),
        None => None,
    }
}

impl OsMeta {
    /// The metadata of a host of `platform` whose version is `version`: the
    /// platform's variant, with the release that the version names in the
    /// platform's table.
    pub open spec fn resolve(platform: Platform, version: Option<OsVersion>) -> OsMeta {
        match platform {
            Platform::MacOs => OsMeta::MacOs { release: macos_release(version) },
            Platform::Windows => OsMeta::Windows { release: windows_release(version) },
            Platform::Debian => OsMeta::Debian { release: debian_release(version) },
            Platform::Ubuntu => OsMeta::Ubuntu { release: ubuntu_release(version) },
            Platform::UnknownLinux => OsMeta::UnknownLinux {},
        }
    }

    /// The name of the release in the metadata, if one is known.
    pub open spec fn spec_release_name(self) -> Option<&'static str> {
        match self {
            OsMeta::MacOs { release } => name_of(release, |r: macos::OsRelease| r.name()),
            OsMeta::Windows { release } => name_of(release, |r: windows::OsRelease| r.name()),
            OsMeta::Debian { release } => name_of(release, |r: debian::OsRelease| r.name()),
            OsMeta::Ubuntu { release } => name_of(release, |r: ubuntu::OsRelease| r.name()),
            OsMeta::UnknownLinux {  } => None,
        }
    }

    /// Returns the string representation of the operating system's release
    /// version name, if one is known.
    pub fn release_name(&self) -> (r: Option<&'static str>)
        ensures
            r == self.spec_release_name(),
    {
        match self {
            OsMeta::MacOs { release } => match release {
                Some(rel) => Some(<&'static str>::from(*rel)),
                None => None,
            },
            OsMeta::Windows { release } => match release {
                Some(rel) => Some(<&'static str>::from(*rel)),
                None => None,
            },
            OsMeta::Debian { release } => match release {
                Some(rel) => Some(<&'static str>::from(*rel)),
                None => None,
            },
            OsMeta::Ubuntu { release } => match release {
                Some(rel) => Some(<&'static str>::from(*rel)),
                None => None,
            },
            OsMeta::UnknownLinux {  } => None,
        }
    }
}

/// Information about the host operating system.
#[derive(Clone, Copy, Debug, PartialEq, Eq, Structural)]
pub struct OsInfo {
    /// Metadata for the host OS.
    pub meta: OsMeta,
    /// The operating system version.
    pub version: Option<OsVersion>,
}

impl OsInfo {
    /// Information about a host of `platform` whose version query gave
    /// `version` (none where the query failed): the version as it is, and the
    /// release that it names in the platform's table.
    pub fn get(platform: Platform, version: Option<OsVersion>) -> (r: OsInfo)
        ensures
            r.version == version,
            r.meta == OsMeta::resolve(platform, version),
    {
        let meta = match platform {
            Platform::MacOs => OsMeta::MacOs {
                release: match version {
                    Some(v) => macos::OsRelease::new(v.as_version()),
                    None => None,
                },
            },
            Platform::Windows => OsMeta::Windows {
                release: match version {
                    Some(v) => windows::OsRelease::new(v.as_version()),
                    None => None,
                },
            },
            Platform::Debian => OsMeta::Debian {
                release: match version {
                    Some(v) => debian::OsRelease::new(v.as_version()),
                    None => None,
                },
            },
            Platform::Ubuntu => OsMeta::Ubuntu {
                release: match version {
                    Some(v) => ubuntu::OsRelease::new(v.as_version()),
                    None => None,
                },
            },
            Platform::UnknownLinux => OsMeta::UnknownLinux {  },
        };
        OsInfo { meta, version }
    }
}

} // verus!
