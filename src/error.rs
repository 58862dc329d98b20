//! The ways a launch can fail.
use vstd::prelude::*;

verus! {

/// Why a launch stopped. Errors after container creation name the container, so
/// that a caller can inspect or stop it.
#[derive(Clone, Debug, PartialEq, Eq)]
pub enum Error {
    /// A bad transport token or a missing port; nothing has been allocated.
    InvalidArgument(String),
    /// The permission profile file could not be read.
    ProfileNotFound(String),
    /// The permission profile file could not be parsed.
    ProfileMalformed(String),
    /// No usable container engine.
    EngineUnavailable(String),
    /// The container could not be created or started.
    CreationFailed(String),
    /// The transport would not take the runtime handle.
    Transport(String),
    /// The transport's setup failed; the identifier is empty before creation.
    SetupFailed { container_id: String, message: String },
    /// The transport would not start; the container is already running.
    StartFailed { container_id: String, message: String },
}

} // verus!
