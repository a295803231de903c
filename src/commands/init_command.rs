use crate::constants::METADATA_FILE;
use crate::errors::AetherError;
use crate::model::project_models::{ProjectMetadata, Timestamp};
use crate::paths::{join_path, path_join, project_root, project_root_path};
use vstd::prelude::*;

verus! {

/// What creating a project writes: the root directory, and the metadata
/// record at its path under the root.
pub struct ProjectSetup {
    pub root: String,
    pub metadata_file: String,
    pub metadata: ProjectMetadata,
}

/// Decides on initialising a project under `current_directory` at time
/// `now`, where `root_exists` tells whether its project root exists: where it
/// does, the error names `current_directory` and nothing is to be written;
/// otherwise the setup to create, stamped with `now`.
pub fn execute(current_directory: &str, root_exists: bool, now: Timestamp) -> (r: Result<ProjectSetup, AetherError>)
    ensures
        root_exists <==> r is Err,
        r matches Err(e) ==> e matches AetherError::AlreadyInitialized { directory }
            && directory@ == current_directory@,
        r matches Ok(s) ==> {
            &&& s.root@ == project_root_path(current_directory@)
            &&& s.metadata_file@ == path_join(project_root_path(current_directory@), METADATA_FILE@)
            &&& s.metadata.creation_timestamp == now
        },
{
    if root_exists {
        return Err(AetherError::AlreadyInitialized { directory: current_directory.to_string() });
    }
    let root = project_root(current_directory);
    let metadata_file = join_path(root.as_str(), METADATA_FILE);
    Ok(ProjectSetup { root, metadata_file, metadata: ProjectMetadata { creation_timestamp: now } })
}

} // verus!
