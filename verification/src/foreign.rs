//! Declarations of the types of std and of outside crates that the library
//! carries, and the calls that render their errors as text.

use vstd::prelude::*;

verus! {

/// `std::io::Error`, carried opaque.
#[verifier::external_type_specification]
#[verifier::external_body]
pub struct ExIoError(std::io::Error);

/// `serde_json::Error`, carried opaque.
#[verifier::external_type_specification]
#[verifier::external_body]
pub struct ExJsonError(serde_json::Error);

/// `std::path::PathBuf`, carried opaque.
#[verifier::external_type_specification]
#[verifier::external_body]
pub struct ExPathBuf(std::path::PathBuf);

/// `walkdir::DirEntry`, carried opaque.
#[verifier::external_type_specification]
#[verifier::external_body]
pub struct ExDirEntry(walkdir::DirEntry);

/// The `Display` text of a `std::io::Error`. It rests on the operating
/// system's message for the error code, so nothing is stated of it.
#[verifier::external_body]
pub fn io_error_text(err: &std::io::Error) -> String {
    err.to_string()
}

/// `std::error::Error::description` of a `std::io::Error`: the kind's
/// description or the wrapped error's; nothing is stated of it.
#[verifier::external_body]
#[allow(deprecated)]
pub fn io_error_description(err: &std::io::Error) -> String {
    std::error::Error::description(err).to_owned()
}

/// The `Display` text of a `serde_json::Error`: its message and, where known,
/// the line and column; nothing is stated of it.
#[verifier::external_body]
pub fn json_error_text(err: &serde_json::Error) -> String {
    err.to_string()
}

/// `std::error::Error::description` of a `serde_json::Error`, which keeps std's
/// default text; nothing is stated of it.
#[verifier::external_body]
#[allow(deprecated)]
pub fn json_error_description(err: &serde_json::Error) -> String {
    std::error::Error::description(err).to_owned()
}

} // verus!
