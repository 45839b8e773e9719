//! Semantic versions and the scope decision of the version filter: a release
//! is in scope for signature checking iff its full version string is not on
//! the skip-list and its base version (build/architecture suffix stripped)
//! is among the known versions.

use vstd::prelude::*;

use crate::text::{find_char, first_index_of, lemma_first_index_of};

verus! {

/// The base version of a version string: the characters before the first
/// `+`, i.e. with any build/architecture suffix stripped.
pub open spec fn base_version_of(v: Seq<char>) -> Seq<char> {
    v.subrange(0, first_index_of(v, '+'))
}

/// The engine's own model of a parsed semantic version: the fields the
/// filter compares, as plain values.
#[derive(Debug)]
pub struct Version {
    pub major: u64,
    pub minor: u64,
    pub patch: u64,
    /// The pre-release identifiers, joined with `.` (empty for none).
    pub pre: String,
    /// The build metadata (empty for none); stripped versions parse with
    /// none, so it matters only for caller-supplied known versions.
    pub build: String,
}

pub struct VersionView {
    pub major: int,
    pub minor: int,
    pub patch: int,
    pub pre: Seq<char>,
    pub build: Seq<char>,
}

impl View for Version {
    type V = VersionView;

    open spec fn view(&self) -> VersionView {
        VersionView {
            major: self.major as int,
            minor: self.minor as int,
            patch: self.patch as int,
            pre: self.pre@,
            build: self.build@,
        }
    }
}

impl Version {
    /// Whether two versions are the same in every compared field.
    pub fn same(&self, other: &Version) -> (r: bool)
        ensures
            r == (self@ == other@),
    {
        self.major == other.major && self.minor == other.minor && self.patch == other.patch
            && self.pre == other.pre && self.build == other.build
    }
}

/// What semver's `Version::parse` yields on `s`: `None` when `s` is not a
/// well-formed semantic version. The outcome depends on the text alone.
pub uninterp spec fn parsed_semver(s: Seq<char>) -> Option<VersionView>;

/// Relies on semver's `Version::parse`; major, minor, patch, pre-release and
/// build metadata are moved into the engine's own type.
#[verifier::external_body]
pub fn parse_version(s: &str) -> (r: Option<Version>)
    ensures
        (match parsed_semver(s@) {
            Some(v) => r matches Some(p) && p@ == v,
            None => r is None,
        }),
{
    match semver::Version::parse(s) {
        Ok(v) => Some(
            Version {
                major: v.major,
                minor: v.minor,
                patch: v.patch,
                pre: v.pre.as_str().to_string(),
                build: v.build.as_str().to_string(),
            },
        ),
        Err(_) => None,
    }
}

/// Returns the version with everything from the first `+` on stripped.
pub fn strip_build_suffix(version: &String) -> (r: String)
    ensures
        r@ == base_version_of(version@),
{
    let i = find_char(version.as_str(), '+');
    proof {
        lemma_first_index_of(version@, '+');
    }
    version.as_str().substring_char(0, i).to_owned()
}

/// Whether the full version string is on the skip-list.
pub open spec fn in_skip_list(skip: Seq<String>, version: Seq<char>) -> bool {
    exists|i: int| 0 <= i < skip.len() && skip[i]@ == version
}

/// Whether a parsed version is among the known versions.
pub open spec fn in_known_versions(known: Seq<Version>, v: VersionView) -> bool {
    exists|i: int| 0 <= i < known.len() && known[i]@ == v
}

/// The scope decision for one version string: skip-listed versions are out
/// of scope outright; otherwise the base version must parse (`None` when it
/// does not: a hard error) and scope is membership among the known versions.
pub open spec fn scope_of(version: Seq<char>, known: Seq<Version>, skip: Seq<String>) -> Option<
    bool,
> {
    if in_skip_list(skip, version) {
        Some(false)
    } else {
        match parsed_semver(base_version_of(version)) {
            Some(v) => Some(in_known_versions(known, v)),
            None => None,
        }
    }
}

/// Law: a skip-listed version is never in scope, whatever the known
/// versions hold.
pub proof fn lemma_skip_list_wins(version: Seq<char>, known: Seq<Version>, skip: Seq<String>)
    requires
        in_skip_list(skip, version),
    ensures
        scope_of(version, known, skip) == Some(false),
{
}

/// Law: off the skip-list, a version whose base parses is in scope exactly
/// when the base version is among the known versions.
pub proof fn lemma_scope_is_known_membership(
    version: Seq<char>,
    known: Seq<Version>,
    skip: Seq<String>,
    v: VersionView,
)
    requires
        !in_skip_list(skip, version),
        parsed_semver(base_version_of(version)) == Some(v),
    ensures
        scope_of(version, known, skip) == Some(in_known_versions(known, v)),
{
}

pub fn contains_version(known: &Vec<Version>, v: &Version) -> (r: bool)
    ensures
        r == in_known_versions(known@, v@),
{
    let n: usize = known.len();
    let mut i: usize = 0;
    while i < n
        invariant
            0 <= i <= n,
            n == known@.len(),
            forall|j: int| 0 <= j < i ==> known@[j]@ != v@,
        decreases n - i,
    {
        if known[i].same(v) {
            assert(known@[i as int]@ == v@);
            return true;
        }
        i = i + 1;
    }
    false
}

pub fn contains_string(list: &Vec<String>, s: &String) -> (r: bool)
    ensures
        r == in_skip_list(list@, s@),
{
    let n: usize = list.len();
    let mut i: usize = 0;
    while i < n
        invariant
            0 <= i <= n,
            n == list@.len(),
            forall|j: int| 0 <= j < i ==> list@[j]@ != s@,
        decreases n - i,
    {
        if list[i].eq(s) {
            assert(list@[i as int]@ == s@);
            return true;
        }
        i = i + 1;
    }
    false
}

/// The version string that could not be parsed as a semantic version; this
/// indicates upstream data corruption and is fatal for the run.
#[derive(Debug)]
pub struct VersionError {
    pub version: String,
}

/// Decides whether a version string is in scope for signature checking.
pub fn version_in_scope(version: &String, known: &Vec<Version>, skip: &Vec<String>) -> (r: Result<
    bool,
    VersionError,
>)
    ensures
        (match scope_of(version@, known@, skip@) {
            Some(b) => r matches Ok(rb) && rb == b,
            None => r matches Err(e) && e.version@ == version@,
        }),
{
    if contains_string(skip, version) {
        return Ok(false);
    }
    let base = strip_build_suffix(version);
    match parse_version(base.as_str()) {
        Some(v) => Ok(contains_version(known, &v)),
        None => Err(VersionError { version: version.clone() }),
    }
}

} // verus!
