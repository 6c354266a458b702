//! Types of std and of outside crates that values of this crate carry
//! through unread: the errors of I/O, of the TOML reader and of the JSON
//! codec that the edge hands back into the library's error types, and
//! clock readings.

use vstd::prelude::*;

verus! {

/// `std::io::Error`, carried unread inside the library's error types.
#[verifier::external_type_specification]
#[verifier::external_body]
pub struct ExIoError(std::io::Error);

/// `toml::de::Error`, carried unread inside `ConfigError::Parse`.
#[verifier::external_type_specification]
#[verifier::external_body]
pub struct ExTomlError(toml::de::Error);

/// `serde_json::Error`, carried unread inside `IpcError::Json`.
#[verifier::external_type_specification]
#[verifier::external_body]
pub struct ExJsonError(serde_json::Error);

/// `std::time::Instant`, a clock reading carried unread.
#[verifier::external_type_specification]
#[verifier::external_body]
pub struct ExInstant(std::time::Instant);

/// The text of an I/O error as its `Display` writes it (`to_string`).
///
/// Nothing is claimed of the text: the error is opaque here.
#[verifier::external_body]
pub(crate) fn io_error_text(e: &std::io::Error) -> String {
    e.to_string()
}

} // verus!
