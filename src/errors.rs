use vstd::prelude::*;

verus! {

/// Everything that can go wrong in this library and around it.
pub enum AetherError {
    /// The project root already exists under `directory`.
    AlreadyInitialized { directory: String },
    /// No project root exists under `directory`.
    NotInitialized { directory: String },
    /// A filesystem operation on `path` failed.
    IoFailure { path: String, detail: String },
    /// A document could not be encoded, or one on disk could not be decoded.
    SerializationFailure { detail: String },
    /// The file that was to be tracked does not exist or cannot be read.
    FileNotFound { path: String },
    /// The command is not available yet.
    NotImplemented,
}

/// The error for an operation that needs a project where `current_directory`
/// holds none.
pub fn uninitialized_error(current_directory: &str) -> (e: AetherError)
    ensures
        e matches AetherError::NotInitialized { directory } && directory@ == current_directory@,
{
    AetherError::NotInitialized { directory: current_directory.to_string() }
}

} // verus!
