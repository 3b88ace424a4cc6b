use fs_sentinel::filesystem::FileSystem;
use fs_sentinel::linux::{Error, Linux, FSNOTIFYWAIT_PROGRAM, WATCHED_EVENTS};

#[test]
fn cache_directory() {
    assert_eq!(Linux.get_cache_directory(), "/var/cache/fs-sentinel");
}

#[test]
fn watcher_for_an_existing_path() {
    let fs = FileSystem::new("home".to_string(), "/home/user".to_string());
    let watcher = Linux.get_filesystem_watcher(fs, true).unwrap();
    assert_eq!(
        watcher.command_args(),
        vec![
            "--quiet".to_string(),
            "--filesystem".to_string(),
            "--event".to_string(),
            "modify,attrib,close_write,moved_to,moved_from,move_self,create,delete,delete_self".to_string(),
            "/home/user".to_string(),
        ]
    );
    assert_eq!(watcher.filesystem_id(), "home");
    assert_eq!(FSNOTIFYWAIT_PROGRAM, "fsnotifywait");
    assert_eq!(WATCHED_EVENTS, "modify,attrib,close_write,moved_to,moved_from,move_self,create,delete,delete_self");
}

#[test]
fn watcher_for_a_missing_path() {
    let fs = FileSystem::new("gone".to_string(), "/does/not/exist".to_string());
    match Linux.get_filesystem_watcher(fs, false) {
        Err(Error::InvalidFileSystemPath(p)) => assert_eq!(p, "/does/not/exist"),
        other => panic!("unexpected {:?}", other),
    }
}

#[test]
fn health_check() {
    assert!(Linux.health_check(true).is_ok());
    let e = Linux.health_check(false).unwrap_err();
    assert!(matches!(e, Error::MissingFSNotifyWait));
    assert_eq!(e.to_string(), "can't find fsnotifywait binary in PATH; see README for more details");
    assert_eq!(
        Error::InvalidFileSystemPath("/x".to_string()).to_string(),
        "filesystem path doesn't exist or isn't accessible"
    );
}
