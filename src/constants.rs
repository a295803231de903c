use vstd::prelude::*;

verus! {

/// Reserved subdirectory that marks an initialised project.
pub const AETHER_DIR: &'static str = ".aether";

/// File under the project root that holds the registry of tracked files.
pub const TRACKED_FILES_FILE: &'static str = "tracked_files.json";

/// File under the project root that holds the project's metadata.
pub const METADATA_FILE: &'static str = "metadata.json";

} // verus!
