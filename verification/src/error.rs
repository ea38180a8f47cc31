//! Error taxonomy of the bootstrap operation.

use vstd::prelude::*;
use crate::env::EnvVar;

verus! {

/// A failure while provisioning: either a connection could not be
/// established, or a catalog statement was rejected by the server.
/// The carried message is the driver's own description of the cause.
#[derive(Clone, Debug, PartialEq, Eq)]
pub enum BootstrapError {
    ConnectionFailed { message: String },
    StatementFailed { message: String },
}

/// A failure of an environment-driven bootstrap run, distinguishing a
/// missing variable, a value that does not parse as its expected type,
/// and an underlying provisioning failure.
#[derive(Clone, Debug, PartialEq, Eq)]
pub enum BootstrapFromEnvironmentError {
    /// The named variable was absent from the environment.
    ConfigMissing(EnvVar),
    /// The named variable held the carried text, which does not parse
    /// as the type the variable requires.
    ConfigParseFailed(EnvVar, String),
    /// Configuration was sound, but provisioning itself failed.
    Provisioning(BootstrapError),
}

} // verus!
