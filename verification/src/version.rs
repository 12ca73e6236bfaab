//! The version of Alfred the workflow runs under, and the version
//! requirements it is checked against, both handled by the `semver` crate.

use vstd::prelude::*;

use crate::text::{chars_of, parse_decimal, parse_unsigned};

verus! {

#[verifier::external_type_specification]
#[verifier::external_body]
pub struct ExSemverVersion(semver::Version);

#[verifier::external_type_specification]
#[verifier::external_body]
pub struct ExSemverVersionReq(semver::VersionReq);

/// The parts of a semantic version: major, minor, patch, pre-release and
/// build metadata.
pub type VersionParts = (u64, u64, u64, Seq<char>, Seq<char>);

/// The parts of `major.minor.patch` with no pre-release and no build
/// metadata.
pub open spec fn plain_version(major: u64, minor: u64, patch: u64) -> VersionParts {
    (major, minor, patch, Seq::empty(), Seq::empty())
}

/// What `semver::Version::parse` makes of a text: `None` where it fails.
pub uninterp spec fn semver_version_parse(text: Seq<char>) -> Option<VersionParts>;

/// Whether `semver::VersionReq::parse` accepts a text.
pub uninterp spec fn semver_req_parses(text: Seq<char>) -> bool;

/// What `semver::VersionReq::matches` answers for the requirement parsed
/// from `req` and a version with the given parts.
pub uninterp spec fn semver_req_matches(req: Seq<char>, version: VersionParts) -> bool;

/// A semantic version, held both as a `semver::Version` and as its parts.
///
/// Values are only made by `parse_version` and `new_version`, which fill the
/// parts from the `semver::Version` they hold, so the two always agree.
pub struct AlfredVersion {
    inner: semver::Version,
    major: u64,
    minor: u64,
    patch: u64,
    pre: String,
    build: String,
}

impl View for AlfredVersion {
    type V = VersionParts;

    closed spec fn view(&self) -> VersionParts {
        (self.major, self.minor, self.patch, self.pre@, self.build@)
    }
}

impl AlfredVersion {
    /// The major version.
    pub fn major(&self) -> (r: u64)
        ensures
            r == self@.0,
    {
        self.major
    }

    /// The minor version.
    pub fn minor(&self) -> (r: u64)
        ensures
            r == self@.1,
    {
        self.minor
    }

    /// The patch version.
    pub fn patch(&self) -> (r: u64)
        ensures
            r == self@.2,
    {
        self.patch
    }

    /// The pre-release identifiers, empty where there are none.
    pub fn pre(&self) -> (r: &str)
        ensures
            r@ == self@.3,
    {
        self.pre.as_str()
    }

    /// The build metadata, empty where there is none.
    pub fn build(&self) -> (r: &str)
        ensures
            r@ == self@.4,
    {
        self.build.as_str()
    }
}

/// A version requirement such as `>=3`, held with the text it was parsed
/// from.
pub struct VersionRequirement {
    req: semver::VersionReq,
    text: String,
}

impl VersionRequirement {
    /// The text the requirement was parsed from.
    pub closed spec fn source(&self) -> Seq<char> {
        self.text@
    }
}

/// Calls `semver::Version::parse` and takes the parts of the version it
/// returns. The contract names its result `semver_version_parse`; `None`
/// stands for semver's error.
#[verifier::external_body]
pub(crate) fn parse_version(text: &str) -> (r: Option<AlfredVersion>)
    ensures
        match r {
            Some(v) => semver_version_parse(text@) == Some(v@),
            None => semver_version_parse(text@) is None,
        },
{
    match semver::Version::parse(text) {
        Ok(v) => Some(
            AlfredVersion {
                major: v.major,
                minor: v.minor,
                patch: v.patch,
                pre: v.pre.as_str().to_string(),
                build: v.build.as_str().to_string(),
                inner: v,
            },
        ),
        Err(_) => None,
    }
}

/// Calls `semver::Version::new`, which makes `major.minor.patch` with no
/// pre-release and no build metadata.
#[verifier::external_body]
pub(crate) fn new_version(major: u64, minor: u64, patch: u64) -> (r: AlfredVersion)
    ensures
        r@ == plain_version(major, minor, patch),
{
    let v = semver::Version::new(major, minor, patch);
    AlfredVersion {
        major: v.major,
        minor: v.minor,
        patch: v.patch,
        pre: v.pre.as_str().to_string(),
        build: v.build.as_str().to_string(),
        inner: v,
    }
}

/// Calls `semver::VersionReq::parse`. The contract claims that it succeeds
/// exactly where `semver_req_parses` holds, and that it succeeds on the two
/// requirements `>=3` and `>=5.0.0-E`, which semver's grammar accepts
/// (an operator followed by a version whose minor and patch may be left out,
/// and whose pre-release may be given).
#[verifier::external_body]
pub(crate) fn parse_version_req(text: &str) -> (r: Option<VersionRequirement>)
    ensures
        r is Some <==> semver_req_parses(text@),
        r matches Some(q) ==> q.source() == text@,
        text@ == ">=3"@ || text@ == ">=5.0.0-E"@ ==> r is Some,
{
    match semver::VersionReq::parse(text) {
        Ok(req) => Some(VersionRequirement { req, text: text.to_string() }),
        Err(_) => None,
    }
}

/// Calls `semver::VersionReq::matches`. The contract names its answer
/// `semver_req_matches`, over the requirement's source text and the
/// version's parts.
#[verifier::external_body]
pub(crate) fn req_matches(req: &VersionRequirement, version: &AlfredVersion) -> (r: bool)
    ensures
        r == semver_req_matches(req.source(), version@),
{
    req.req.matches(&version.inner)
}

/// The index of the first `c` in `s`, if there is one.
pub open spec fn find_char(s: Seq<char>, c: char) -> Option<nat>
    decreases s.len(),
{
    if s.len() == 0 {
        None
    } else if s[0] == c {
        Some(0)
    } else {
        match find_char(s.drop_first(), c) {
            Some(i) => Some(i + 1),
            None => None,
        }
    }
}

/// The version assumed when Alfred does not say which one it is.
pub open spec fn fallback_major() -> u64 {
    2
}

/// The version that `get_alfred_version` settles on for the text Alfred
/// gave (`None` where it gave none): the text read as a semantic version;
/// where it is not one, the number before its first `.` as the major version
/// (2 where that is no number); where it has no `.`, version 2.0.0.
pub open spec fn alfred_version_from(env: Option<Seq<char>>) -> VersionParts {
    match env {
        None => plain_version(fallback_major(), 0, 0),
        Some(s) => match semver_version_parse(s) {
            Some(p) => p,
            None => match find_char(s, '.') {
                None => plain_version(fallback_major(), 0, 0),
                Some(idx) => match parse_unsigned(s.take(idx as int), u64::MAX as nat) {
                    Some(m) => plain_version(m as u64, 0, 0),
                    None => plain_version(fallback_major(), 0, 0),
                },
            },
        },
    }
}

/// The index of the first `c` in `v`.
fn find_in(v: &Vec<char>, c: char) -> (r: Option<usize>)
    ensures
        match r {
            Some(i) => find_char(v@, c) == Some(i as nat),
            None => find_char(v@, c) is None,
        },
        r matches Some(i) ==> i < v@.len(),
{
    let mut i: usize = 0;
    assert(v@.subrange(0, v@.len() as int) =~= v@);
    while i < v.len()
        invariant
            i <= v@.len(),
            find_char(v@, c) == (match find_char(v@.subrange(i as int, v@.len() as int), c) {
                Some(k) => Some((k + i) as nat),
                None => None,
            }),
        decreases v@.len() - i,
    {
        assert(v@.subrange(i as int, v@.len() as int).drop_first() =~= v@.subrange(
            i + 1,
            v@.len() as int,
        ));
        if v[i] == c {
            return Some(i);
        }
        i = i + 1;
    }
    None
}

/// Which version of Alfred we are being executed under, from the version
/// text Alfred hands the workflow (`None` where it hands none).
///
/// Where that text is not a semantic version, the number before its first
/// dot is taken as the major version; failing that, version 2.0.0.
pub fn get_alfred_version(env: Option<&str>) -> (r: AlfredVersion)
    ensures
        r@ == alfred_version_from(
            match env {
                Some(s) => Some(s@),
                None => None,
            },
        ),
{
    let min_version: u64 = 2;
    match env {
        None => new_version(min_version, 0, 0),
        Some(s) => match parse_version(s) {
            Some(v) => v,
            None => {
                let chars = chars_of(s);
                match find_in(&chars, '.') {
                    None => new_version(min_version, 0, 0),
                    Some(idx) => {
                        let mut prefix: Vec<char> = Vec::new();
                        let mut i: usize = 0;
                        while i < idx
                            invariant
                                i <= idx <= chars@.len(),
                                prefix@ == chars@.take(i as int),
                            decreases idx - i,
                        {
                            prefix.push(chars[i]);
                            assert(prefix@ =~= chars@.take(i + 1));
                            i = i + 1;
                        }
                        let m = match parse_decimal(&prefix, u64::MAX) {
                            Some(m) => m,
                            None => min_version,
                        };
                        new_version(m, 0, 0)
                    },
                }
            },
        },
    }
}

} // verus!
