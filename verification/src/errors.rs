//! The error taxonomy of startup provisioning.
//!
//! Every failure the provisioning pipeline can report is one of these
//! kinds; none is recoverable in-process, the host aborts startup on any
//! of them.

use vstd::prelude::*;

verus! {

/// A startup provisioning failure.
///
/// - `HostPathUnavailable`: the host cannot name a per-user local data
///   directory for the current session.
/// - `PathTypeConflict`: the data directory path exists but is not a
///   directory.
/// - `DirectoryCreateFailed`: creating the data directory failed for any
///   other reason (permissions, quota).
/// - `OpenFailed`: opening or creating the database file failed.
/// - `RegistryInvalid`: the built-in migration registry is malformed; a
///   programmer error caught before any mutation.
/// - `SchemaNewerThanBinary`: the database marker exceeds the registry's
///   maximum version; the binary is older than the schema.
/// - `MigrationFailed`: applying the migration with the given version
///   failed; its transaction was rolled back.
#[derive(Debug, Clone, PartialEq, Eq)]
pub enum ProvisionError {
    HostPathUnavailable,
    PathTypeConflict,
    DirectoryCreateFailed,
    OpenFailed,
    RegistryInvalid,
    SchemaNewerThanBinary,
    MigrationFailed { version: u64, cause: String },
}

} // verus!
