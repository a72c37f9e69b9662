//! Declarations of the outside error types that the library's error enums carry.
//! Verus sees nothing inside these values; the library only moves them along.

use vstd::prelude::*;

verus! {

/// `std::io::Error`, carried by manifest and configuration errors.
#[verifier::external_type_specification]
#[verifier::external_body]
pub struct ExIoError(std::io::Error);

/// `serde_yaml::Error`, carried by manifest errors.
#[verifier::external_type_specification]
#[verifier::external_body]
pub struct ExYamlError(serde_yaml::Error);

/// `serde_json::Error`, carried by configuration and provider errors.
#[verifier::external_type_specification]
#[verifier::external_body]
pub struct ExJsonError(serde_json::Error);

/// `rusqlite::Error`, carried by provider errors.
#[verifier::external_type_specification]
#[verifier::external_body]
pub struct ExSqliteError(rusqlite::Error);

} // verus!
