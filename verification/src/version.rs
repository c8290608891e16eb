//! Semantic versions, as the semver crate reads them.

use vstd::prelude::*;

verus! {

/// A semantic version: three numbers, a pre-release and build metadata
/// (each empty where the version has none).
#[derive(Debug, PartialEq, Eq)]
pub struct SemVer {
    pub major: u64,
    pub minor: u64,
    pub patch: u64,
    pub pre: String,
    pub build: String,
}

/// What a semantic version is.
pub struct SemVerView {
    pub major: u64,
    pub minor: u64,
    pub patch: u64,
    pub pre: Seq<char>,
    pub build: Seq<char>,
}

/// The semantic version that `text` says, if it says one.
pub uninterp spec fn semver_of(text: Seq<char>) -> Option<SemVerView>;

/// Calls `Version::parse` of the semver crate and takes the parts of the
/// version that comes back. The contract names the result.
#[verifier::external_body]
fn parse_semver(text: &str) -> (version: Result<SemVer, semver::Error>)
    ensures
        match version {
            Ok(v) => semver_of(text@) == Some(v@),
            Err(_) => semver_of(text@) is None,
        },
{
    let v = semver::Version::parse(text)?;
    Ok(SemVer {
        major: v.major,
        minor: v.minor,
        patch: v.patch,
        pre: v.pre.as_str().to_string(),
        build: v.build.as_str().to_string(),
    })
}

impl SemVer {
    /// What the version is.
    pub open spec fn view(&self) -> SemVerView {
        SemVerView {
            major: self.major,
            minor: self.minor,
            patch: self.patch,
            pre: self.pre@,
            build: self.build@,
        }
    }

    /// The semantic version that `text` says, or `None` where it says none.
    pub fn parse(text: &str) -> (version: Option<SemVer>)
        ensures
            match version {
                Some(v) => semver_of(text@) == Some(v@),
                None => semver_of(text@) is None,
            },
    {
        match parse_semver(text) {
            Ok(version) => Some(version),
            Err(_) => None,
        }
    }
}

} // verus!
