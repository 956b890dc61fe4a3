use osinfo::decimal::IntErrorKind;
use osinfo::version::ParseVersionError;
use osinfo::{OsVersion, Version};

type VersionTriple = (u64, u64, u64);

#[test]
fn version_cmp() {
    let pairs: &[(VersionTriple, VersionTriple)] = &[
        ((0, 0, 1), (0, 0, 0)),
        ((0, 1, 0), (0, 0, 1)),
        ((0, 1, 1), (0, 1, 0)),
        ((1, 0, 0), (0, 0, 1)),
        ((1, 0, 0), (0, 1, 0)),
    ];
    for &(a, b) in pairs {
        let a = Version::from(a);
        let b = Version::from(b);
        assert!(a > b);
        assert!(a != b);
        assert!(b < a);
    }
}

#[test]
fn parse_success() {
    let pairs: &[(&str, VersionTriple)] = &[
        ("0", Default::default()),
        ("0.1", (0, 1, 0)),
        ("0.1.2", (0, 1, 2)),
        ("16.04", (16, 4, 0)),
    ];
    for &(string, version) in pairs {
        let version = Version::from(version);
        let strings: [&str; 2] = [string, &version.to_string()];

        for string in strings.iter() {
            assert_eq!(string.parse(), Ok(version));
        }
    }
}

#[test]
fn parse_failure() {
    let strings: &[&str] = &["", ".", "..", "...", "....", "0.", "0.0.", "0.0.0.", "0.0.0.0"];
    for s in strings {
        Version::parse(s).expect_err(&format!("parsing {:?}", s));
    }
}

#[test]
fn parse_named_errors() {
    assert_eq!(Version::parse(""), Err(ParseVersionError::EmptyInput));
    assert_eq!(Version::parse("0.0.0.0"), Err(ParseVersionError::ExtraInput));
    assert_eq!(Version::parse("1.2.3."), Err(ParseVersionError::ExtraInput));
    assert_eq!(
        Version::parse("a.1.2"),
        Err(ParseVersionError::MajorInt(IntErrorKind::InvalidDigit))
    );
    assert_eq!(Version::parse(".1"), Err(ParseVersionError::MajorInt(IntErrorKind::Empty)));
    assert_eq!(
        Version::parse("1.x"),
        Err(ParseVersionError::MinorInt(IntErrorKind::InvalidDigit))
    );
    assert_eq!(Version::parse("1."), Err(ParseVersionError::MinorInt(IntErrorKind::Empty)));
    assert_eq!(
        Version::parse("1.2.-3"),
        Err(ParseVersionError::PatchInt(IntErrorKind::InvalidDigit))
    );
    assert_eq!(
        Version::parse("1.2.+"),
        Err(ParseVersionError::PatchInt(IntErrorKind::InvalidDigit))
    );
}

#[test]
fn parse_sixteen_oh_four() {
    assert_eq!(Version::parse("16.04"), Ok(Version::new(16, 4, 0)));
}

#[test]
fn parse_limits_and_signs() {
    assert_eq!(
        Version::parse("18446744073709551615"),
        Ok(Version::new(u64::MAX, 0, 0))
    );
    assert_eq!(
        Version::parse("18446744073709551616"),
        Err(ParseVersionError::MajorInt(IntErrorKind::PosOverflow))
    );
    assert_eq!(
        Version::parse("1.99999999999999999999x"),
        Err(ParseVersionError::MinorInt(IntErrorKind::PosOverflow))
    );
    assert_eq!(
        Version::parse("1.1844674407370955161x"),
        Err(ParseVersionError::MinorInt(IntErrorKind::InvalidDigit))
    );
    assert_eq!(Version::parse("+3.+4.+5"), Ok(Version::new(3, 4, 5)));
    assert_eq!(Version::parse("007"), Ok(Version::new(7, 0, 0)));
}

#[test]
fn to_string_renders_all_components() {
    assert_eq!(Version::new(16, 4, 0).to_string(), "16.4.0");
    assert_eq!(Version::new(0, 0, 0).to_string(), "0.0.0");
    assert_eq!(Version::new(1, 20, 300).to_string(), "1.20.300");
    assert_eq!(
        Version::new(u64::MAX, 10, 9).to_string(),
        "18446744073709551615.10.9"
    );
}

#[test]
fn to_string_parses_back() {
    let versions = [
        Version::new(0, 0, 0),
        Version::new(16, 4, 0),
        Version::new(10, 14, 6),
        Version::new(u64::MAX, u64::MAX, u64::MAX),
        Version::new(9, 99, 999),
    ];
    for v in versions.iter() {
        assert_eq!(Version::parse(&v.to_string()), Ok(*v));
    }
}

#[test]
fn tuple_conversions() {
    assert_eq!(Version::from((1, 2, 3)), Version::new(1, 2, 3));
    assert_eq!(Version::from((1, 2)), Version::new(1, 2, 0));
    assert_eq!(Version::from((7,)), Version::new(7, 0, 0));
    assert_eq!(Version::from(7u64), Version::new(7, 0, 0));
    let t: (u64, u64, u64) = Version::new(4, 5, 6).into();
    assert_eq!(t, (4, 5, 6));
    assert_eq!(Version::default(), Version::new(0, 0, 0));
}

#[test]
fn os_version_conversions() {
    let os = OsVersion { major: 10, minor: 0, patch: 0, build: 17763 };
    assert_eq!(os.as_version(), Version::new(10, 0, 0));
    assert_eq!(Version::from(os), Version::new(10, 0, 0));
    let back = OsVersion::from(Version::new(6, 1, 2));
    assert_eq!(back, OsVersion { major: 6, minor: 1, patch: 2, build: 0 });
    assert_eq!(OsVersion::default(), OsVersion { major: 0, minor: 0, patch: 0, build: 0 });
}

#[test]
fn windows_query_results() {
    assert_eq!(OsVersion::from_windows_query(false, 10, 0, 17763), None);
    assert_eq!(
        OsVersion::from_windows_query(true, 10, 0, 17763),
        Some(OsVersion { major: 10, minor: 0, patch: 0, build: 17763 })
    );
}
