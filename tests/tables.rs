use osinfo::info::os::linux::{debian, ubuntu};
use osinfo::info::os::macos::{self, MAX_MINOR_VERSION, MIN_MINOR_VERSION};
use osinfo::info::os::windows;
use osinfo::Version;

#[test]
fn ubuntu_cmp() {
    assert!(ubuntu::OsRelease::LATEST > ubuntu::OsRelease::MIN);
}

#[test]
fn macos_cmp() {
    assert!(macos::OsRelease::LATEST > macos::OsRelease::MIN);
}

#[test]
fn windows_cmp() {
    assert!(windows::OsRelease::LATEST > windows::OsRelease::MIN);
}

#[test]
fn debian_cmp() {
    assert!(debian::OsRelease::LATEST > debian::OsRelease::MIN);
}

#[test]
fn version_conversion() {
    let minor_end = MAX_MINOR_VERSION + 1;
    let major = 10;

    assert_eq!(macos::OsRelease::new(Version::from((major, minor_end))), None);

    for minor in MIN_MINOR_VERSION..minor_end {
        let vers = Version::from((major, minor));
        let name = macos::OsRelease::new(vers).unwrap();
        assert_eq!(Version::from(name), vers);
    }
}

#[test]
fn ubuntu_bionic_beaver() {
    assert_eq!(
        ubuntu::OsRelease::new(Version::from((18, 4))),
        Some(ubuntu::OsRelease::BionicBeaver)
    );
    assert_eq!(
        ubuntu::OsRelease::BionicBeaver.min_kernel_version(),
        Version::new(4, 15, 0)
    );
    assert_eq!(
        ubuntu::OsRelease::FeistyFawn.min_kernel_version(),
        Version::new(2, 6, 20)
    );
    let name: &str = ubuntu::OsRelease::BionicBeaver.into();
    assert_eq!(name, "Bionic Beaver");
    assert_eq!(ubuntu::OsRelease::new(Version::from((18, 5))), None);
    assert_eq!(
        ubuntu::OsRelease::new(Version::new(18, 4, 3)),
        Some(ubuntu::OsRelease::BionicBeaver)
    );
}

#[test]
fn macos_mojave_and_beyond() {
    assert_eq!(
        macos::OsRelease::new(Version::from((10, 14))),
        Some(macos::OsRelease::Mojave)
    );
    assert_eq!(
        macos::OsRelease::new(Version::from((10, MAX_MINOR_VERSION + 1))),
        None
    );
    assert_eq!(macos::OsRelease::new(Version::from((10, 6))), None);
    assert_eq!(macos::OsRelease::new(Version::from((11, 7))), None);
    let name: &str = macos::OsRelease::ElCapitan.into();
    assert_eq!(name, "El Capitan");
}

#[test]
fn windows_releases() {
    assert_eq!(
        windows::OsRelease::new(Version::from((6, 1))),
        Some(windows::OsRelease::Windows7)
    );
    assert_eq!(
        windows::OsRelease::new(Version::from((10, 0))),
        Some(windows::OsRelease::Windows10)
    );
    assert_eq!(windows::OsRelease::new(Version::from((6, 4))), None);
    let name: &str = windows::OsRelease::Windows8_1.into();
    assert_eq!(name, "8.1");
}

#[test]
fn debian_releases() {
    assert_eq!(
        debian::OsRelease::new(Version::from((9, 0))),
        Some(debian::OsRelease::Stretch)
    );
    assert_eq!(
        debian::OsRelease::new(Version::from((1, 1))),
        Some(debian::OsRelease::Buzz)
    );
    assert_eq!(debian::OsRelease::new(Version::from((2, 3))), None);
    assert_eq!(Version::from(debian::OsRelease::Sarge), Version::new(3, 1, 0));
}

#[test]
fn every_release_round_trips() {
    let ubuntu_all = [
        ubuntu::OsRelease::FeistyFawn,
        ubuntu::OsRelease::GutsyGibbon,
        ubuntu::OsRelease::HardyHeron,
        ubuntu::OsRelease::IntrepidIbex,
        ubuntu::OsRelease::JauntyJackalope,
        ubuntu::OsRelease::KarmicKoala,
        ubuntu::OsRelease::LucidLynx,
        ubuntu::OsRelease::MaverickMeerkat,
        ubuntu::OsRelease::NattyNarwhal,
        ubuntu::OsRelease::OneiricOcelot,
        ubuntu::OsRelease::PrecisePangolin,
        ubuntu::OsRelease::QuantalQuetzal,
        ubuntu::OsRelease::RaringRingtail,
        ubuntu::OsRelease::SaucySalamander,
        ubuntu::OsRelease::TrustyTahr,
        ubuntu::OsRelease::UtopicUnicorn,
        ubuntu::OsRelease::VividVervet,
        ubuntu::OsRelease::WilyWerewolf,
        ubuntu::OsRelease::XenialXerus,
        ubuntu::OsRelease::YakketyYak,
        ubuntu::OsRelease::ZestyZapus,
        ubuntu::OsRelease::ArtfulAardvark,
        ubuntu::OsRelease::BionicBeaver,
        ubuntu::OsRelease::CosmicCuttlefish,
    ];
    for r in ubuntu_all.iter() {
        assert_eq!(ubuntu::OsRelease::new(Version::from(*r)), Some(*r));
    }
    let debian_all = [
        debian::OsRelease::Buzz,
        debian::OsRelease::Rex,
        debian::OsRelease::Bo,
        debian::OsRelease::Hamm,
        debian::OsRelease::Slink,
        debian::OsRelease::Potato,
        debian::OsRelease::Woody,
        debian::OsRelease::Sarge,
        debian::OsRelease::Etch,
        debian::OsRelease::Lenny,
        debian::OsRelease::Squeeze,
        debian::OsRelease::Wheezy,
        debian::OsRelease::Jessie,
        debian::OsRelease::Stretch,
    ];
    for r in debian_all.iter() {
        assert_eq!(debian::OsRelease::new(Version::from(*r)), Some(*r));
    }
    let windows_all = [
        windows::OsRelease::Windows7,
        windows::OsRelease::Windows8,
        windows::OsRelease::Windows8_1,
        windows::OsRelease::Windows10,
    ];
    for r in windows_all.iter() {
        assert_eq!(windows::OsRelease::new(Version::from(*r)), Some(*r));
    }
    let macos_all = [
        macos::OsRelease::Lion,
        macos::OsRelease::MountainLion,
        macos::OsRelease::Mavericks,
        macos::OsRelease::Yosemite,
        macos::OsRelease::ElCapitan,
        macos::OsRelease::Sierra,
        macos::OsRelease::HighSierra,
        macos::OsRelease::Mojave,
    ];
    for r in macos_all.iter() {
        assert_eq!(macos::OsRelease::new(Version::from(*r)), Some(*r));
    }
}

#[test]
fn release_order_is_version_order() {
    assert!(ubuntu::OsRelease::XenialXerus < ubuntu::OsRelease::BionicBeaver);
    assert!(Version::from(ubuntu::OsRelease::XenialXerus) < Version::from(ubuntu::OsRelease::BionicBeaver));
    assert!(macos::OsRelease::Sierra > macos::OsRelease::Yosemite);
    assert!(windows::OsRelease::Windows8 < windows::OsRelease::Windows8_1);
    assert!(Version::from(debian::OsRelease::LATEST) > Version::from(debian::OsRelease::MIN));
}
