//! Error kinds of the backup run.
//!
//! Only `UnsupportedBackend` is decided by the library itself (an unknown
//! backend kind string). The other kinds classify failures that the I/O
//! layer observes and reports: configuration, connection, a dump process
//! exiting non-zero, and persisting or compressing a finished dump.

use vstd::prelude::*;

verus! {

#[derive(Clone, Copy, PartialEq, Eq, Structural, Debug)]
pub enum BackupError {
    /// The backend kind string matches none of the known backends.
    UnsupportedBackend,
    /// Configuration unreadable or malformed.
    Configuration,
    /// The catalog query could not reach or authenticate against the server.
    Connection,
    /// One database's dump process exited non-zero.
    ExportProcess,
    /// Writing the dump file or compressing it failed.
    Persistence,
}

impl BackupError {
    /// A human-readable description of the error kind.
    pub fn describe(&self) -> (r: String)
        ensures
            *self == BackupError::UnsupportedBackend ==> r@ == "unsupported backend kind"@,
            *self == BackupError::Configuration ==> r@ == "configuration unreadable or malformed"@,
            *self == BackupError::Connection ==> r@ == "could not reach or authenticate against the server"@,
            *self == BackupError::ExportProcess ==> r@ == "dump process exited with a failure status"@,
            *self == BackupError::Persistence ==> r@ == "could not persist or compress the dump"@,
    {
        match self {
            BackupError::UnsupportedBackend => "unsupported backend kind".to_owned(),
            BackupError::Configuration => "configuration unreadable or malformed".to_owned(),
            BackupError::Connection => "could not reach or authenticate against the server".to_owned(),
            BackupError::ExportProcess => "dump process exited with a failure status".to_owned(),
            BackupError::Persistence => "could not persist or compress the dump".to_owned(),
        }
    }
}

} // verus!
