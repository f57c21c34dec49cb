use vstd::prelude::*;

verus! {

/// Why a proposed (name, url) entry was refused.
#[derive(Debug, Clone, Copy, PartialEq, Eq, Structural)]
pub enum InputProblem {
    /// The app name is empty.
    EmptyName,
    /// The URL is empty.
    EmptyUrl,
    /// The URL starts with neither `http://` nor `https://`.
    BadScheme,
}

/// The failures of the configuration store.
#[derive(Debug)]
pub enum ConfigError {
    /// The backing file could not be read or parsed when the store was built.
    StartupFailure { reason: String },
    /// A reload could not read or parse the backing file; nothing was replaced.
    ReloadFailed { reason: String },
    /// The new document could not be written; nothing was replaced.
    PersistFailed { reason: String },
    /// A proposed entry was refused before the store was touched.
    InvalidInput { problem: InputProblem },
    /// The lock around the store was poisoned.
    StoreUnavailable,
}

} // verus!
