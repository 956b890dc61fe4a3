//! Simple version information.
use crate::decimal::{decimal, lemma_decimal_digits, lemma_parse_decimal, parse_u64_in, parse_u64_spec, push_decimal, IntErrorKind};
use vstd::prelude::*;

verus! {

/// A simple `MAJOR.MINOR.PATCH` version.
///
/// Unlike a semantic version, this value holds no pre-release identifier and
/// no build metadata.
#[derive(Clone, Copy, Debug, PartialEq, Eq, Structural, Ord, Hash)]
pub struct Version {
    /// The `x.0.0` version number.
    pub major: u64,
    /// The `0.y.0` version number.
    pub minor: u64,
    /// The `0.0.z` version number.
    pub patch: u64,
}

/// Lexicographic comparison of two version triples.
pub open spec fn cmp_triple(a: Version, b: Version) -> core::cmp::Ordering {
    if a.major != b.major {
        if a.major < b.major { core::cmp::Ordering::Less } else { core::cmp::Ordering::Greater }
    } else if a.minor != b.minor {
        if a.minor < b.minor { core::cmp::Ordering::Less } else { core::cmp::Ordering::Greater }
    } else if a.patch != b.patch {
        if a.patch < b.patch { core::cmp::Ordering::Less } else { core::cmp::Ordering::Greater }
    } else {
        core::cmp::Ordering::Equal
    }
}

/// `a` comes strictly before `b` in the lexicographic order of triples.
pub open spec fn version_lt(a: Version, b: Version) -> bool {
    cmp_triple(a, b) == core::cmp::Ordering::Less
}

pub(crate) fn cmp_u64(a: u64, b: u64) -> (r: core::cmp::Ordering)
    ensures
        r == (if a < b {
            core::cmp::Ordering::Less
        } else if a > b {
            core::cmp::Ordering::Greater
        } else {
            core::cmp::Ordering::Equal
        }),
{
    if a < b {
        core::cmp::Ordering::Less
    } else if a > b {
        core::cmp::Ordering::Greater
    } else {
        core::cmp::Ordering::Equal
    }
}

impl PartialOrd for Version {
    fn partial_cmp(&self, other: &Version) -> (r: Option<core::cmp::Ordering>)
        ensures
            r == Some(cmp_triple(*self, *other)),
    {
        if self.major != other.major {
            Some(cmp_u64(self.major, other.major))
        } else if self.minor != other.minor {
            Some(cmp_u64(self.minor, other.minor))
        } else {
            Some(cmp_u64(self.patch, other.patch))
        }
    }
}

impl vstd::std_specs::cmp::PartialOrdSpecImpl for Version {
    open spec fn obeys_partial_cmp_spec() -> bool {
        true
    }

    open spec fn partial_cmp_spec(&self, other: &Version) -> Option<core::cmp::Ordering> {
        Some(cmp_triple(*self, *other))
    }
}

impl Default for Version {
    fn default() -> (r: Version)
        ensures
            r == (Version { major: 0, minor: 0, patch: 0 }),
    {
        Version { major: 0, minor: 0, patch: 0 }
    }
}

impl From<Version> for (u64, u64, u64) {
    fn from(v: Version) -> (r: (u64, u64, u64))
        ensures
            r == (v.major, v.minor, v.patch),
    {
        (v.major, v.minor, v.patch)
    }
}

impl vstd::std_specs::convert::FromSpecImpl<Version> for (u64, u64, u64) {
    open spec fn obeys_from_spec() -> bool {
        true
    }

    open spec fn from_spec(v: Version) -> (u64, u64, u64) {
        (v.major, v.minor, v.patch)
    }
}

impl From<(u64, u64, u64)> for Version {
    fn from(t: (u64, u64, u64)) -> (r: Version)
        ensures
            r == (Version { major: t.0, minor: t.1, patch: t.2 }),
    {
        Version { major: t.0, minor: t.1, patch: t.2 }
    }
}

impl vstd::std_specs::convert::FromSpecImpl<(u64, u64, u64)> for Version {
    open spec fn obeys_from_spec() -> bool {
        true
    }

    open spec fn from_spec(t: (u64, u64, u64)) -> Version {
        Version { major: t.0, minor: t.1, patch: t.2 }
    }
}

impl From<(u64, u64)> for Version {
    fn from(t: (u64, u64)) -> (r: Version)
        ensures
            r == (Version { major: t.0, minor: t.1, patch: 0 }),
    {
        Version { major: t.0, minor: t.1, patch: 0 }
    }
}

impl vstd::std_specs::convert::FromSpecImpl<(u64, u64)> for Version {
    open spec fn obeys_from_spec() -> bool {
        true
    }

    open spec fn from_spec(t: (u64, u64)) -> Version {
        Version { major: t.0, minor: t.1, patch: 0 }
    }
}

impl From<(u64,)> for Version {
    fn from(t: (u64,)) -> (r: Version)
        ensures
            r == (Version { major: t.0, minor: 0, patch: 0 }),
    {
        Version { major: t.0, minor: 0, patch: 0 }
    }
}

impl vstd::std_specs::convert::FromSpecImpl<(u64,)> for Version {
    open spec fn obeys_from_spec() -> bool {
        true
    }

    open spec fn from_spec(t: (u64,)) -> Version {
        Version { major: t.0, minor: 0, patch: 0 }
    }
}

impl From<u64> for Version {
    fn from(major: u64) -> (r: Version)
        ensures
            r == (Version { major, minor: 0, patch: 0 }),
    {
        Version { major, minor: 0, patch: 0 }
    }
}

impl vstd::std_specs::convert::FromSpecImpl<u64> for Version {
    open spec fn obeys_from_spec() -> bool {
        true
    }

    open spec fn from_spec(major: u64) -> Version {
        Version { major, minor: 0, patch: 0 }
    }
}

/// A `MAJOR.MINOR.PATCH` version with extras for the current operating system.
#[derive(Clone, Copy, Debug, PartialEq, Eq, Structural, PartialOrd, Ord, Hash)]
pub struct OsVersion {
    /// The `x.0.0` version number.
    pub major: u64,
    /// The `0.y.0` version number.
    pub minor: u64,
    /// The `0.0.z` version number.
    pub patch: u64,
    /// The build number, where the operating system reports one, else zero.
    pub build: u64,
}

impl Default for OsVersion {
    fn default() -> (r: OsVersion)
        ensures
            r == (OsVersion { major: 0, minor: 0, patch: 0, build: 0 }),
    {
        OsVersion { major: 0, minor: 0, patch: 0, build: 0 }
    }
}

impl From<Version> for OsVersion {
    fn from(v: Version) -> (r: OsVersion)
        ensures
            r == (OsVersion { major: v.major, minor: v.minor, patch: v.patch, build: 0 }),
    {
        OsVersion { major: v.major, minor: v.minor, patch: v.patch, build: 0 }
    }
}

impl vstd::std_specs::convert::FromSpecImpl<Version> for OsVersion {
    open spec fn obeys_from_spec() -> bool {
        true
    }

    open spec fn from_spec(v: Version) -> OsVersion {
        OsVersion { major: v.major, minor: v.minor, patch: v.patch, build: 0 }
    }
}

impl From<OsVersion> for Version {
    fn from(v: OsVersion) -> (r: Version)
        ensures
            r == v.spec_version(),
    {
        v.as_version()
    }
}

impl vstd::std_specs::convert::FromSpecImpl<OsVersion> for Version {
    open spec fn obeys_from_spec() -> bool {
        true
    }

    open spec fn from_spec(v: OsVersion) -> Version {
        v.spec_version()
    }
}

impl OsVersion {
    /// The plain version triple, without the extras.
    pub open spec fn spec_version(self) -> Version {
        Version { major: self.major, minor: self.minor, patch: self.patch }
    }

    /// Returns `self` as a plain `Version`.
    pub fn as_version(&self) -> (r: Version)
        ensures
            r == self.spec_version(),
    {
        Version { major: self.major, minor: self.minor, patch: self.patch }
    }

    /// The version that a Windows version query reports: none when the query
    /// failed, else its major, minor and build numbers, with patch zero.
    pub fn from_windows_query(succeeded: bool, major: u32, minor: u32, build: u32) -> (r: Option<
        OsVersion,
    >)
        ensures
            r == (if succeeded {
                Some(
                    OsVersion {
                        major: major as u64,
                        minor: minor as u64,
                        patch: 0,
                        build: build as u64,
                    },
                )
            } else {
                None
            }),
    {
        if succeeded {
            Some(
                OsVersion { major: major as u64, minor: minor as u64, patch: 0, build: build as u64 },
            )
        } else {
            None
        }
    }
}

/// An error returned when parsing a version string fails.
#[derive(Clone, Copy, Debug, PartialEq, Eq, Structural)]
pub enum ParseVersionError {
    /// Failed to parse major integer value.
    MajorInt(IntErrorKind),
    /// Failed to parse minor integer value.
    MinorInt(IntErrorKind),
    /// Failed to parse patch integer value.
    PatchInt(IntErrorKind),
    /// Parse input is empty.
    EmptyInput,
    /// Parse input had an extra period and maybe more.
    ExtraInput,
}

impl core::str::FromStr for Version {
    type Err = ParseVersionError;

    fn from_str(s: &str) -> (r: Result<Version, ParseVersionError>)
        ensures
            r == parse_spec(s@),
    {
        Version::parse(s)
    }
}

/// The pieces of `s` between its periods, in order: one more than there are
/// periods, some of them perhaps empty.
pub open spec fn split_dots(s: Seq<char>) -> Seq<Seq<char>>
    decreases s.len(),
{
    if s.len() == 0 {
        seq![Seq::<char>::empty()]
    } else {
        let rest = split_dots(s.drop_last());
        if s.last() == '.' {
            rest.push(Seq::<char>::empty())
        } else {
            rest.update(rest.len() - 1, rest.last().push(s.last()))
        }
    }
}

/// A missing component reads as zero.
pub open spec fn component(parts: Seq<Seq<char>>, i: int) -> Result<u64, IntErrorKind> {
    if i < parts.len() {
        parse_u64_spec(parts[i])
    } else {
        Ok(0)
    }
}

/// What parsing `s` as a `MAJOR[.MINOR[.PATCH]]` version gives.
pub open spec fn parse_spec(s: Seq<char>) -> Result<Version, ParseVersionError> {
    let parts = split_dots(s);
    if s.len() == 0 {
        Err(ParseVersionError::EmptyInput)
    } else if parts.len() > 3 {
        Err(ParseVersionError::ExtraInput)
    } else {
        match component(parts, 0) {
            Err(e) => Err(ParseVersionError::MajorInt(e)),
            Ok(major) => match component(parts, 1) {
                Err(e) => Err(ParseVersionError::MinorInt(e)),
                Ok(minor) => match component(parts, 2) {
                    Err(e) => Err(ParseVersionError::PatchInt(e)),
                    Ok(patch) => Ok(Version { major, minor, patch }),
                },
            },
        }
    }
}

/// The text `MAJOR.MINOR.PATCH` of a version, each component in decimal.
pub open spec fn version_text(v: Version) -> Seq<char> {
    decimal(v.major as nat) + seq!['.'] + decimal(v.minor as nat) + seq!['.'] + decimal(
        v.patch as nat,
    )
}

/// Where the piece before the `k`-th period (counting from zero) starts.
spec fn piece_start(dots: Seq<usize>, k: int) -> int {
    if k == 0 {
        0
    } else {
        dots[k - 1] + 1
    }
}

proof fn lemma_split_nonempty(s: Seq<char>)
    ensures
        split_dots(s).len() >= 1,
    decreases s.len(),
{
    if s.len() > 0 {
        lemma_split_nonempty(s.drop_last());
    }
}

proof fn lemma_split_no_dots(p: Seq<char>, t: Seq<char>)
    requires
        forall|i: int| 0 <= i < t.len() ==> t[i] != '.',
    ensures
        split_dots(p + t) == split_dots(p).update(
            split_dots(p).len() - 1,
            split_dots(p).last() + t,
        ),
    decreases t.len(),
{
    lemma_split_nonempty(p);
    if t.len() == 0 {
        assert(p + t =~= p);
        assert(split_dots(p).last() + t =~= split_dots(p).last());
        assert(split_dots(p).update(split_dots(p).len() - 1, split_dots(p).last())
            =~= split_dots(p));
    } else {
        let u = t.drop_last();
        lemma_split_no_dots(p, u);
        assert((p + t).drop_last() =~= p + u);
        assert((p + t).last() == t.last());
        assert(t.last() == t[t.len() - 1]);
        let pp = split_dots(p);
        let q = split_dots(p + u);
        assert(q.len() == pp.len());
        assert(q.last() == pp.last() + u);
        assert((pp.last() + u).push(t.last()) =~= pp.last() + t);
        assert(split_dots(p + t) == q.update(q.len() - 1, q.last().push(t.last())));
        assert(split_dots(p + t) =~= split_dots(p).update(
            split_dots(p).len() - 1,
            split_dots(p).last() + t,
        ));
    }
}

proof fn lemma_split_dot(p: Seq<char>)
    ensures
        split_dots(p + seq!['.']) == split_dots(p).push(Seq::<char>::empty()),
{
    assert((p + seq!['.']).drop_last() =~= p);
}

/// Parsing the text of a version gives back the same version.
pub proof fn lemma_parse_version_text(v: Version)
    ensures
        parse_spec(version_text(v)) == Ok::<Version, ParseVersionError>(v),
{
    let a = decimal(v.major as nat);
    let b = decimal(v.minor as nat);
    let c = decimal(v.patch as nat);
    lemma_decimal_digits(v.major as nat);
    lemma_decimal_digits(v.minor as nat);
    lemma_decimal_digits(v.patch as nat);
    lemma_parse_decimal(v.major);
    lemma_parse_decimal(v.minor);
    lemma_parse_decimal(v.patch);
    let e = Seq::<char>::empty();
    assert(split_dots(e) == seq![e]);
    lemma_split_no_dots(e, a);
    assert(e + a =~= a);
    assert(split_dots(a) =~= seq![a]);
    lemma_split_dot(a);
    let a1 = a + seq!['.'];
    assert(split_dots(a1) =~= seq![a, e]);
    lemma_split_no_dots(a1, b);
    assert(e + b =~= b);
    assert(split_dots(a1 + b) =~= seq![a, b]);
    lemma_split_dot(a1 + b);
    let b1 = a1 + b + seq!['.'];
    assert(split_dots(b1) =~= seq![a, b, e]);
    lemma_split_no_dots(b1, c);
    assert(e + c =~= c);
    assert(split_dots(b1 + c) =~= seq![a, b, c]);
    assert(version_text(v) =~= b1 + c);
}

impl Version {
    /// Creates a new instance from the three values.
    pub fn new(major: u64, minor: u64, patch: u64) -> (r: Version)
        ensures
            r == (Version { major, minor, patch }),
    {
        Version { major, minor, patch }
    }

    /// Converts the version string formatted as `MAJOR.MINOR.PATCH`; a
    /// missing minor or patch component reads as zero.
    pub fn parse(version: &str) -> (r: Result<Version, ParseVersionError>)
        ensures
            r == parse_spec(version@),
    {
        let n = version.unicode_len();
        if n == 0 {
            return Err(ParseVersionError::EmptyInput);
        }
        let ghost s = version@;
        let mut dots: Vec<usize> = Vec::new();
        let mut i: usize = 0;
        assert(s.subrange(0, 0) =~= Seq::<char>::empty());
        while i < n
            invariant
                n == s.len(),
                s == version@,
                0 <= i <= n,
                split_dots(s.subrange(0, i as int)).len() == dots@.len() + 1,
                forall|k: int|
                    0 <= k < dots@.len() ==> piece_start(dots@, k) <= #[trigger] dots@[k] < i,
                forall|k: int|
                    0 <= k < dots@.len() ==> #[trigger] split_dots(s.subrange(0, i as int))[k]
                        == s.subrange(piece_start(dots@, k), dots@[k] as int),
                piece_start(dots@, dots@.len() as int) <= i,
                split_dots(s.subrange(0, i as int))[dots@.len() as int] == s.subrange(
                    piece_start(dots@, dots@.len() as int),
                    i as int,
                ),
            decreases n - i,
        {
            let ghost prefix = s.subrange(0, i as int);
            let ghost old_dots = dots@;
            let ghost parts = split_dots(prefix);
            let c = version.get_char(i);
            assert(s.subrange(0, i + 1).drop_last() =~= prefix);
            assert(s.subrange(0, i + 1).last() == c);
            if c == '.' {
                dots.push(i);
                assert(forall|k: int|
                    0 <= k <= old_dots.len() ==> piece_start(dots@, k) == piece_start(
                        old_dots,
                        k,
                    ));
                assert(s.subrange(i + 1, i + 1) =~= Seq::<char>::empty());
                assert(split_dots(s.subrange(0, i + 1)) == parts.push(Seq::<char>::empty()));
            } else {
                let ghost st = piece_start(dots@, dots@.len() as int);
                assert(s.subrange(st, i as int).push(c) =~= s.subrange(st, i + 1));
                assert(split_dots(s.subrange(0, i + 1)) == parts.update(
                    parts.len() - 1,
                    parts.last().push(c),
                ));
            }
            i = i + 1;
        }
        assert(s.subrange(0, n as int) =~= s);
        if dots.len() > 2 {
            return Err(ParseVersionError::ExtraInput);
        }
        let end0: usize = if dots.len() > 0 { dots[0] } else { n };
        let major = match parse_u64_in(version, 0, end0) {
            Ok(x) => x,
            Err(e) => {
                return Err(ParseVersionError::MajorInt(e));
            },
        };
        let mut minor: u64 = 0;
        if dots.len() > 0 {
            let end1: usize = if dots.len() > 1 { dots[1] } else { n };
            minor = match parse_u64_in(version, dots[0] + 1, end1) {
                Ok(x) => x,
                Err(e) => {
                    return Err(ParseVersionError::MinorInt(e));
                },
            };
        }
        let mut patch: u64 = 0;
        if dots.len() > 1 {
            patch = match parse_u64_in(version, dots[1] + 1, n) {
                Ok(x) => x,
                Err(e) => {
                    return Err(ParseVersionError::PatchInt(e));
                },
            };
        }
        Ok(Version { major, minor, patch })
    }

    /// Renders the version as `MAJOR.MINOR.PATCH`, each component in decimal.
    pub fn to_string(&self) -> (r: String)
        ensures
            r@ == version_text(*self),
    {
        proof {
            reveal_strlit(".");
        }
        let mut out = String::new();
        push_decimal(&mut out, self.major);
        out.append(".");
        push_decimal(&mut out, self.minor);
        out.append(".");
        push_decimal(&mut out, self.patch);
        proof {
            assert(out@ =~= version_text(*self));
        }
        out
    }
}

} // verus!
