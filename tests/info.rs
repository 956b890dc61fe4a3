use osinfo::info::os::linux::{debian, ubuntu};
use osinfo::info::os::{macos, windows};
use osinfo::{OsInfo, OsMeta, OsVersion, Platform};

fn os_version(major: u64, minor: u64) -> OsVersion {
    OsVersion { major, minor, patch: 0, build: 0 }
}

#[test]
fn get_os_info() {
    let info = OsInfo::get(Platform::MacOs, Some(os_version(10, 14)));

    assert!(info.version.is_some());
    match info.meta {
        OsMeta::MacOs { release, .. } => {
            assert!(release.is_some());
        }
        _ => panic!("expected macOS metadata"),
    }
}

#[test]
fn info_for_each_platform() {
    let w = OsInfo::get(Platform::Windows, Some(os_version(6, 1)));
    assert_eq!(w.meta, OsMeta::Windows { release: Some(windows::OsRelease::Windows7) });
    assert_eq!(w.meta.release_name(), Some("7"));

    let u = OsInfo::get(Platform::Ubuntu, Some(os_version(16, 4)));
    assert_eq!(u.meta, OsMeta::Ubuntu { release: Some(ubuntu::OsRelease::XenialXerus) });
    assert_eq!(u.meta.release_name(), Some("Xenial Xerus"));

    let d = OsInfo::get(Platform::Debian, Some(os_version(8, 0)));
    assert_eq!(d.meta, OsMeta::Debian { release: Some(debian::OsRelease::Jessie) });
    assert_eq!(d.meta.release_name(), Some("Jessie"));

    let m = OsInfo::get(Platform::MacOs, Some(os_version(10, 13)));
    assert_eq!(m.meta, OsMeta::MacOs { release: Some(macos::OsRelease::HighSierra) });
    assert_eq!(m.meta.release_name(), Some("High Sierra"));

    let l = OsInfo::get(Platform::UnknownLinux, Some(os_version(5, 4)));
    assert_eq!(l.meta, OsMeta::UnknownLinux {});
    assert_eq!(l.meta.release_name(), None);
    assert_eq!(l.version, Some(os_version(5, 4)));
}

#[test]
fn unknown_versions_have_no_release() {
    let none = OsInfo::get(Platform::Windows, None);
    assert_eq!(none.version, None);
    assert_eq!(none.meta, OsMeta::Windows { release: None });
    assert_eq!(none.meta.release_name(), None);

    let newer = OsInfo::get(Platform::MacOs, Some(os_version(10, 15)));
    assert_eq!(newer.meta, OsMeta::MacOs { release: None });
    assert_eq!(newer.meta.release_name(), None);

    let between = OsInfo::get(Platform::Ubuntu, Some(os_version(16, 7)));
    assert_eq!(between.meta, OsMeta::Ubuntu { release: None });
}
