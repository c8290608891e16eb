//! Types of outside crates that values are handed to or taken from.

use vstd::prelude::*;

verus! {

/// libipld's `Ipld`, the data model as the codecs of that crate take it.
#[verifier::external_type_specification]
#[verifier::external_body]
pub struct ExOutsideIpld(libipld::Ipld);

/// The error of libipld's codecs.
#[verifier::external_type_specification]
#[verifier::external_body]
pub struct ExCodecFailure(anyhow::Error);

/// The error of the semver crate's parser.
#[verifier::external_type_specification]
#[verifier::external_body]
pub struct ExVersionFailure(semver::Error);

/// The error of std's conversion of bytes to a string.
#[verifier::external_type_specification]
#[verifier::external_body]
pub struct ExUtf8Failure(std::string::FromUtf8Error);

} // verus!
