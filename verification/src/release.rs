//! Releases of the update catalog, as the engine reads them: a version
//! string and, for concrete releases, the payload reference whose digest is
//! the verification subject.

use vstd::prelude::*;

use crate::text::{after_last, suffix_after_last};
use crate::version::{scope_of, version_in_scope, Version, VersionError};

verus! {

/// One catalog entry. A concrete release carries a content-addressed payload
/// reference (e.g. `repository/name@sha256:...`); an abstract release
/// carries none, and signature verification is undefined for it.
#[derive(Debug)]
pub enum Release {
    Concrete { version: String, payload: String },
    Abstract { version: String },
}

impl Release {
    pub open spec fn version_view(&self) -> Seq<char> {
        match self {
            Release::Concrete { version, .. } => version@,
            Release::Abstract { version } => version@,
        }
    }

    /// An identical copy of the release.
    pub fn duplicate(&self) -> (r: Release)
        ensures
            r == *self,
    {
        match self {
            Release::Concrete { version, payload } => Release::Concrete {
                version: version.clone(),
                payload: payload.clone(),
            },
            Release::Abstract { version } => Release::Abstract { version: version.clone() },
        }
    }

    pub fn version(&self) -> (r: &String)
        ensures
            r@ == self.version_view(),
    {
        match self {
            Release::Concrete { version, .. } => version,
            Release::Abstract { version } => version,
        }
    }
}

#[derive(Debug)]
pub enum ReleaseError {
    /// Verification was asked of an abstract release.
    NotConcrete { version: String },
}

/// Extracts the payload reference from a release, if it is a concrete one.
pub fn payload_from_release(release: &Release) -> (r: Result<String, ReleaseError>)
    ensures
        (match release {
            Release::Concrete { payload, .. } => r matches Ok(p) && p@ == payload@,
            Release::Abstract { version } => r matches Err(e)
                && e matches ReleaseError::NotConcrete { version: v } && v@ == version@,
        }),
{
    match release {
        Release::Concrete { payload, .. } => Ok(payload.clone()),
        Release::Abstract { version } => Err(
            ReleaseError::NotConcrete { version: version.clone() },
        ),
    }
}

/// The digest of a payload reference: the substring after the last `@`.
pub open spec fn digest_of_payload(p: Seq<char>) -> Seq<char> {
    after_last(p, '@')
}

/// Returns the digest a release's signature must vouch for, for a concrete
/// release: the substring of the payload reference after the last `@`.
pub fn digest_from_release(release: &Release) -> (r: Result<String, ReleaseError>)
    ensures
        (match release {
            Release::Concrete { payload, .. } => r matches Ok(d) && d@ == digest_of_payload(
                payload@,
            ),
            Release::Abstract { version } => r matches Err(e)
                && e matches ReleaseError::NotConcrete { version: v } && v@ == version@,
        }),
{
    let payload = payload_from_release(release)?;
    Ok(suffix_after_last(&payload, '@'))
}

/// Decides whether a release is in scope for signature checking: its full
/// version string must be off the skip-list and its base version among the
/// known versions. An unparseable version is a hard error for the run.
pub fn is_release_in_versions(known: &Vec<Version>, release: &Release, skip: &Vec<String>) -> (r:
    Result<bool, VersionError>)
    ensures
        (match scope_of(release.version_view(), known@, skip@) {
            Some(b) => r matches Ok(rb) && rb == b,
            None => r matches Err(e) && e.version@ == release.version_view(),
        }),
{
    version_in_scope(release.version(), known, skip)
}

} // verus!
