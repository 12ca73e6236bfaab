//! Errors of the workflow's configuration handling.

use vstd::prelude::*;

verus! {

/// What can go wrong while reading, migrating or storing the configuration.
#[derive(PartialEq, Eq, Debug)]
pub enum AlfredError {
    /// Alfred did not hand the workflow its bundle id.
    MissingBundleId,
    /// `security(1)` could not store the token; its message.
    KeychainError(String),
    /// `osascript` could not write Alfred's configuration sheet; its message.
    OsascriptError(String),
    /// `settings.json` could not be read as a configuration.
    ConfigFileErr,
    /// There is no `settings.json`.
    MissingConfigFile,
}

} // verus!
