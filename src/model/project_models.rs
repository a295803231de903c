use crate::constants::TRACKED_FILES_FILE;
use crate::errors::{uninitialized_error, AetherError};
use crate::paths::{join_path, path_join, project_root, project_root_path};
use vstd::prelude::*;

verus! {

/// A file's path together with the digest of its content, as the contracts
/// see a `TrackedFile`.
pub type Entry = (Seq<char>, Seq<char>);

/// A point in time, as whole seconds and the nanoseconds past them since the
/// Unix epoch.
pub struct Timestamp {
    pub secs_since_epoch: u64,
    pub nanos_since_epoch: u32,
}

/// The record written once when a project is created.
pub struct ProjectMetadata {
    pub creation_timestamp: Timestamp,
}

/// One tracked input file: its path as the caller spelled it, and the
/// lowercase hexadecimal SHA-256 digest of its bytes when it was tracked.
pub struct TrackedFile {
    pub file_path: String,
    pub hash: String,
}

impl View for TrackedFile {
    type V = Entry;

    open spec fn view(&self) -> Entry {
        (self.file_path@, self.hash@)
    }
}

/// The registry document: every tracked file, in the order they were
/// (re)tracked.
pub struct ProjectTrackedFilesData {
    pub tracked_files: Vec<TrackedFile>,
}

impl View for ProjectTrackedFilesData {
    type V = Seq<Entry>;

    open spec fn view(&self) -> Seq<Entry> {
        self.tracked_files@.map_values(|f: TrackedFile| f@)
    }
}

/// A handle on the registry file of an initialised project.
pub struct FileTracking {
    /// Path of the registry file.
    pub src: String,
}

/// What tracking a file asks of the registry file.
pub enum TrackOutcome {
    /// The file is recorded with the same digest: nothing is written.
    Unchanged,
    /// The registry file is to be overwritten with this document.
    Rewrite(ProjectTrackedFilesData),
}

impl View for TrackOutcome {
    type V = Option<Seq<Entry>>;

    open spec fn view(&self) -> Option<Seq<Entry>> {
        match self {
            TrackOutcome::Unchanged => None,
            TrackOutcome::Rewrite(d) => Some(d@),
        }
    }
}

/// Name for the lowercase hexadecimal SHA-256 digest of `bytes`.
pub uninterp spec fn sha256_hex(bytes: Seq<u8>) -> Seq<char>;

/// A character of lowercase hexadecimal.
pub open spec fn is_lower_hex(c: char) -> bool {
    ('0' <= c && c <= '9') || ('a' <= c && c <= 'f')
}

/// Relies on `sha256::digest`, which returns `hex::encode` of the 32-byte
/// SHA-256 digest of its input: 64 lowercase hexadecimal digits that depend
/// on the bytes alone.
#[verifier::external_body]
fn calculate_hash(bytes: &Vec<u8>) -> (r: String)
    ensures
        r@ == sha256_hex(bytes@),
        r@.len() == 64,
        forall|i: int| 0 <= i < r@.len() ==> is_lower_hex(#[trigger] r@[i]),
{
    sha256::digest(bytes)
}

/// `i` is the first position in `s` whose path is `p`.
pub open spec fn is_first_match(s: Seq<Entry>, p: Seq<char>, i: int) -> bool {
    &&& 0 <= i < s.len()
    &&& s[i].0 == p
    &&& forall|k: int| 0 <= k < i ==> s[k].0 != p
}

/// `s` with every entry whose path is `p` left out, the others in order.
pub open spec fn without_path(s: Seq<Entry>, p: Seq<char>) -> Seq<Entry>
    decreases s.len(),
{
    if s.len() == 0 {
        s
    } else {
        let rest = without_path(s.drop_last(), p);
        if s.last().0 == p {
            rest
        } else {
            rest.push(s.last())
        }
    }
}

/// The registry that results from tracking path `p` with digest `h` in
/// registry `s`: `None` when the first entry for `p` already holds `h`
/// (nothing changes), otherwise every entry for `p` is dropped and `(p, h)`
/// appended.
pub open spec fn track_spec(s: Seq<Entry>, p: Seq<char>, h: Seq<char>) -> Option<Seq<Entry>> {
    if exists|i: int| is_first_match(s, p, i) && s[i].1 == h {
        None
    } else {
        Some(without_path(s, p).push((p, h)))
    }
}

/// The registry as it stands after tracking: unchanged, or rewritten.
pub open spec fn after_track(s: Seq<Entry>, p: Seq<char>, h: Seq<char>) -> Seq<Entry> {
    match track_spec(s, p, h) {
        None => s,
        Some(t) => t,
    }
}

/// No two entries share a path.
pub open spec fn paths_unique(s: Seq<Entry>) -> bool {
    forall|i: int, j: int| 0 <= i < s.len() && 0 <= j < s.len() && i != j ==> s[i].0 != s[j].0
}

/// Path of the registry file of the project under `current_directory`.
pub open spec fn registry_path(current_directory: Seq<char>) -> Seq<char> {
    path_join(project_root_path(current_directory), TRACKED_FILES_FILE@)
}

impl TrackedFile {
    /// The record for the file at `file_path` whose bytes are `contents`.
    pub fn track(file_path: &String, contents: &Vec<u8>) -> (r: TrackedFile)
        ensures
            r@ == (file_path@, sha256_hex(contents@)),
    {
        let hash = calculate_hash(contents);
        TrackedFile { file_path: file_path.clone(), hash }
    }

    fn duplicate(&self) -> (r: TrackedFile)
        ensures
            r@ == self@,
    {
        TrackedFile { file_path: self.file_path.clone(), hash: self.hash.clone() }
    }
}

impl ProjectTrackedFilesData {
    /// A registry that tracks nothing.
    pub fn empty() -> (r: ProjectTrackedFilesData)
        ensures
            r@ == Seq::<Entry>::empty(),
    {
        let r = ProjectTrackedFilesData { tracked_files: Vec::new() };
        assert(r@ =~= Seq::<Entry>::empty());
        r
    }

    /// Position of the first entry whose path is `file_path`, if any.
    pub fn find(&self, file_path: &String) -> (r: Option<usize>)
        ensures
            match r {
                Some(i) => is_first_match(self@, file_path@, i as int),
                None => forall|k: int| 0 <= k < self@.len() ==> self@[k].0 != file_path@,
            },
    {
        let n = self.tracked_files.len();
        let mut i: usize = 0;
        while i < n
            invariant
                n == self.tracked_files@.len(),
                n == self@.len(),
                i <= n,
                forall|k: int| 0 <= k < i ==> self@[k].0 != file_path@,
            decreases n - i,
        {
            if self.tracked_files[i].file_path == *file_path {
                return Some(i);
            }
            i = i + 1;
        }
        None
    }

    /// A copy of this registry without the entries whose path is `file_path`.
    pub fn without(&self, file_path: &String) -> (r: ProjectTrackedFilesData)
        ensures
            r@ == without_path(self@, file_path@),
    {
        let n = self.tracked_files.len();
        let mut kept: Vec<TrackedFile> = Vec::new();
        let mut i: usize = 0;
        while i < n
            invariant
                n == self.tracked_files@.len(),
                n == self@.len(),
                i <= n,
                kept@.map_values(|f: TrackedFile| f@) == without_path(self@.subrange(0, i as int), file_path@),
            decreases n - i,
        {
            let ghost before = kept@;
            let f = &self.tracked_files[i];
            assert(self@.subrange(0, i + 1).drop_last() =~= self@.subrange(0, i as int));
            if f.file_path != *file_path {
                kept.push(f.duplicate());
                assert(kept@.map_values(|f: TrackedFile| f@) =~= before.map_values(|f: TrackedFile| f@).push(f@));
            }
            i = i + 1;
        }
        assert(self@.subrange(0, n as int) =~= self@);
        ProjectTrackedFilesData { tracked_files: kept }
    }

    /// Records `file` in this registry: `Unchanged` where the first entry for
    /// its path already holds its digest, otherwise the registry with every
    /// entry for that path replaced by `file`, appended at the end.
    pub fn record(&self, file: TrackedFile) -> (r: TrackOutcome)
        ensures
            r@ == track_spec(self@, file@.0, file@.1),
    {
        match self.find(&file.file_path) {
            Some(i) => {
                if self.tracked_files[i].hash == file.hash {
                    return TrackOutcome::Unchanged;
                }
                proof {
                    assert forall|j: int| is_first_match(self@, file@.0, j) implies j == i by {
                        if j < i {
                        } else if j > i {
                        }
                    }
                }
            },
            None => {},
        }
        let mut next = self.without(&file.file_path);
        let ghost kept = next@;
        next.tracked_files.push(file);
        assert(next@ =~= kept.push(file@));
        TrackOutcome::Rewrite(next)
    }
}

impl FileTracking {
    /// Opens the registry of the project under `current_directory`, where
    /// `root_exists` tells whether its project root exists: without one the
    /// error names `current_directory`; with one the handle is bound to the
    /// registry file under the root.
    pub fn init(current_directory: &str, root_exists: bool) -> (r: Result<FileTracking, AetherError>)
        ensures
            !root_exists <==> r is Err,
            r matches Err(e) ==> e matches AetherError::NotInitialized { directory }
                && directory@ == current_directory@,
            r matches Ok(t) ==> t.src@ == registry_path(current_directory@),
    {
        if !root_exists {
            return Err(uninitialized_error(current_directory));
        }
        let root = project_root(current_directory);
        let src = join_path(root.as_str(), TRACKED_FILES_FILE);
        Ok(FileTracking { src })
    }

    /// The document to create the registry file with, where `registry_exists`
    /// tells whether that file exists: an empty registry where it does not,
    /// nothing where it does.
    pub fn initial_document(&self, registry_exists: bool) -> (r: Option<ProjectTrackedFilesData>)
        ensures
            registry_exists <==> r is None,
            r matches Some(d) ==> d@ == Seq::<Entry>::empty(),
    {
        if registry_exists {
            None
        } else {
            Some(ProjectTrackedFilesData::empty())
        }
    }

    /// Tracks the file at `file_path`, whose bytes are `contents`, against
    /// `registry`, the document read from this handle's file.
    pub fn track(&self, registry: &ProjectTrackedFilesData, file_path: &String, contents: &Vec<u8>) -> (r: TrackOutcome)
        ensures
            r@ == track_spec(registry@, file_path@, sha256_hex(contents@)),
    {
        let candidate = TrackedFile::track(file_path, contents);
        registry.record(candidate)
    }
}

} // verus!
