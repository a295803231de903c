use aether::commands::fallback_command;
use aether::commands::init_command::execute;
use aether::errors::{uninitialized_error, AetherError};
use aether::model::project_models::{
    FileTracking, ProjectTrackedFilesData, Timestamp, TrackOutcome, TrackedFile,
};
use aether::paths::{join_path, project_root};

fn handle() -> FileTracking {
    match FileTracking::init("/proj", true) {
        Ok(t) => t,
        Err(_) => panic!("an initialised project must open"),
    }
}

fn rewritten(outcome: TrackOutcome) -> ProjectTrackedFilesData {
    match outcome {
        TrackOutcome::Rewrite(d) => d,
        TrackOutcome::Unchanged => panic!("expected a rewrite"),
    }
}

fn entry(path: &str, hash: &str) -> TrackedFile {
    TrackedFile { file_path: path.to_string(), hash: hash.to_string() }
}

fn pairs(d: &ProjectTrackedFilesData) -> Vec<(String, String)> {
    d.tracked_files.iter().map(|f| (f.file_path.clone(), f.hash.clone())).collect()
}

#[test]
fn scenario_init_track_retrack_modify() {
    let setup = match execute("/proj", false, Timestamp { secs_since_epoch: 5, nanos_since_epoch: 7 }) {
        Ok(s) => s,
        Err(_) => panic!("a fresh directory must initialise"),
    };
    assert_eq!(setup.root, "/proj/.aether");
    assert_eq!(setup.metadata_file, "/proj/.aether/metadata.json");

    let tracking = handle();
    assert_eq!(tracking.src, "/proj/.aether/tracked_files.json");
    let registry = match tracking.initial_document(false) {
        Some(d) => d,
        None => panic!("a missing registry file must be created"),
    };
    assert!(registry.tracked_files.is_empty());

    let path = "/proj/scene.blend".to_string();
    let first = rewritten(tracking.track(&registry, &path, &b"A".to_vec()));
    assert_eq!(pairs(&first), vec![(path.clone(), sha256::digest("A"))]);

    assert!(matches!(tracking.track(&first, &path, &b"A".to_vec()), TrackOutcome::Unchanged));

    let second = rewritten(tracking.track(&first, &path, &b"B".to_vec()));
    assert_eq!(pairs(&second), vec![(path.clone(), sha256::digest("B"))]);
}

#[test]
fn tracking_unchanged_file_twice_writes_nothing() {
    let tracking = handle();
    let mut registry = ProjectTrackedFilesData::empty();
    registry.tracked_files.push(entry("a.blend", "00"));
    let path = "b.blend".to_string();
    let after = rewritten(tracking.track(&registry, &path, &b"scene".to_vec()));
    assert!(matches!(tracking.track(&after, &path, &b"scene".to_vec()), TrackOutcome::Unchanged));
    assert_eq!(pairs(&after).len(), 2);
}

#[test]
fn sequence_of_tracks_keeps_one_entry_per_path() {
    let tracking = handle();
    let mut registry = ProjectTrackedFilesData::empty();
    let calls: Vec<(&str, &[u8])> = vec![
        ("a", b"1"), ("b", b"1"), ("a", b"2"), ("a", b"2"), ("./a", b"2"), ("b", b"3"), ("a", b"1"),
    ];
    for (p, c) in calls {
        if let TrackOutcome::Rewrite(next) = tracking.track(&registry, &p.to_string(), &c.to_vec()) {
            registry = next;
        }
    }
    let got = pairs(&registry);
    assert_eq!(
        got,
        vec![
            ("./a".to_string(), sha256::digest("2")),
            ("b".to_string(), sha256::digest("3")),
            ("a".to_string(), sha256::digest("1")),
        ]
    );
}

#[test]
fn changed_content_replaces_hash_without_duplicate() {
    let tracking = handle();
    let mut registry = ProjectTrackedFilesData::empty();
    registry.tracked_files.push(entry("x", "old-x"));
    registry.tracked_files.push(entry("scene.blend", &sha256::digest("v1")));
    registry.tracked_files.push(entry("y", "old-y"));
    let path = "scene.blend".to_string();
    let next = rewritten(tracking.track(&registry, &path, &b"v2".to_vec()));
    assert_eq!(
        pairs(&next),
        vec![
            ("x".to_string(), "old-x".to_string()),
            ("y".to_string(), "old-y".to_string()),
            (path.clone(), sha256::digest("v2")),
        ]
    );
}

#[test]
fn second_initialise_fails_already_initialized() {
    let now = Timestamp { secs_since_epoch: 1, nanos_since_epoch: 2 };
    assert!(execute("/proj", false, now).is_ok());
    let now2 = Timestamp { secs_since_epoch: 9, nanos_since_epoch: 9 };
    match execute("/proj", true, now2) {
        Err(AetherError::AlreadyInitialized { directory }) => assert_eq!(directory, "/proj"),
        _ => panic!("expected AlreadyInitialized"),
    }
}

#[test]
fn init_records_timestamp() {
    let now = Timestamp { secs_since_epoch: 1_700_000_000, nanos_since_epoch: 123 };
    match execute("/work/", false, now) {
        Ok(s) => {
            assert_eq!(s.metadata.creation_timestamp.secs_since_epoch, 1_700_000_000);
            assert_eq!(s.metadata.creation_timestamp.nanos_since_epoch, 123);
            assert_eq!(s.root, "/work/.aether");
        }
        Err(_) => panic!("a fresh directory must initialise"),
    }
}

#[test]
fn open_without_project_fails_not_initialized() {
    match FileTracking::init("/nowhere", false) {
        Err(AetherError::NotInitialized { directory }) => assert_eq!(directory, "/nowhere"),
        _ => panic!("expected NotInitialized"),
    }
}

#[test]
fn existing_registry_file_is_not_recreated() {
    assert!(handle().initial_document(true).is_none());
}

#[test]
fn hash_is_lowercase_sha256_hex() {
    let f = TrackedFile::track(&"greeting".to_string(), &b"hello".to_vec());
    assert_eq!(f.file_path, "greeting");
    assert_eq!(f.hash, "2cf24dba5fb0a30e26e83b2ac5b9e29e1b161e5c1fa7425e73043362938b9824");
    let empty = TrackedFile::track(&"e".to_string(), &Vec::new());
    assert_eq!(empty.hash, "e3b0c44298fc1c149afbf4c8996fb92427ae41e4649b934ca495991b7852b855");
}

#[test]
fn record_same_hash_is_unchanged() {
    let mut registry = ProjectTrackedFilesData::empty();
    registry.tracked_files.push(entry("p", "h"));
    assert!(matches!(registry.record(entry("p", "h")), TrackOutcome::Unchanged));
    let next = rewritten(registry.record(entry("q", "h")));
    assert_eq!(pairs(&next), vec![("p".to_string(), "h".to_string()), ("q".to_string(), "h".to_string())]);
}

#[test]
fn record_uses_first_entry_and_drops_all_duplicates() {
    let mut registry = ProjectTrackedFilesData::empty();
    registry.tracked_files.push(entry("p", "h1"));
    registry.tracked_files.push(entry("z", "hz"));
    registry.tracked_files.push(entry("p", "h2"));
    assert!(matches!(registry.record(entry("p", "h1")), TrackOutcome::Unchanged));
    let next = rewritten(registry.record(entry("p", "h2")));
    assert_eq!(pairs(&next), vec![("z".to_string(), "hz".to_string()), ("p".to_string(), "h2".to_string())]);
}

#[test]
fn find_and_without() {
    let mut registry = ProjectTrackedFilesData::empty();
    registry.tracked_files.push(entry("a", "1"));
    registry.tracked_files.push(entry("b", "2"));
    registry.tracked_files.push(entry("a", "3"));
    assert_eq!(registry.find(&"a".to_string()), Some(0));
    assert_eq!(registry.find(&"b".to_string()), Some(1));
    assert_eq!(registry.find(&"c".to_string()), None);
    let rest = registry.without(&"a".to_string());
    assert_eq!(pairs(&rest), vec![("b".to_string(), "2".to_string())]);
}

#[test]
fn path_joining() {
    assert_eq!(join_path("/proj", "x"), "/proj/x");
    assert_eq!(join_path("/", "x"), "/x");
    assert_eq!(join_path("", "x"), "x");
    assert_eq!(project_root("/home/u/work"), "/home/u/work/.aether");
}

#[test]
fn error_constructors() {
    match uninitialized_error("/d") {
        AetherError::NotInitialized { directory } => assert_eq!(directory, "/d"),
        _ => panic!("expected NotInitialized"),
    }
    assert!(matches!(fallback_command(), Err(AetherError::NotImplemented)));
}
