//! The connection descriptor.
//!
//! Created once at startup from configuration and immutable for the rest
//! of the run: backend kind, server address, credentials, and the folder
//! that receives dump and archive files.

use vstd::prelude::*;

use crate::backend::BackendKind;

verus! {

#[derive(Clone)]
pub struct ConnectionDescriptor {
    pub kind: BackendKind,
    pub host: String,
    pub port: u16,
    pub username: String,
    pub password: String,
    /// Output folder for dump and archive files.
    pub folder: String,
}

} // verus!
