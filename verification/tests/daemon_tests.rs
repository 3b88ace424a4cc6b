use fs_sentinel::daemon::{get_cache_filepath, Daemon, CACHE_FILE_NAME};
use fs_sentinel::error::FSSentinelError;
use fs_sentinel::filesystem::{FileSystem, FileSystemModificationStatus};
use fs_sentinel::ipc::{ipc_response, IPCInput, IPCOutput, SOCKET_PATH};

use FileSystemModificationStatus::{Modified, UnModified};

fn fs(id: &str, path: &str) -> FileSystem {
    FileSystem::new(id.to_string(), path.to_string())
}

fn status(d: &Daemon, id: &str) -> Option<FileSystemModificationStatus> {
    d.get_filesystem_status(&id.to_string()).ok()
}

fn sorted(mut v: Vec<String>) -> Vec<String> {
    v.sort();
    v
}

fn started(paths: Vec<FileSystem>) -> Daemon {
    let mut d = Daemon::new();
    let _ = d.run(paths);
    d
}

#[test]
fn new_daemon_knows_no_filesystem() {
    let d = Daemon::new();
    match d.get_filesystem_status(&"a".to_string()) {
        Err(FSSentinelError::InvalidFileSystemID(id)) => assert_eq!(id, "a"),
        other => panic!("unexpected {:?}", other),
    }
    assert!(d.list_modified_filesystems().is_empty());
    assert!(d.cache_snapshot().is_empty());
}

#[test]
fn run_registers_and_requests_a_watcher_for_each_filesystem() {
    let mut d = Daemon::new();
    let requests = d.run(vec![fs("root", "/"), fs("home", "/home")]);
    assert_eq!(requests.len(), 2);
    assert_eq!(requests[0].filesystem.id, "root");
    assert_eq!(requests[0].filesystem.path, "/");
    assert_eq!(requests[1].filesystem.id, "home");
    assert_eq!(requests[1].filesystem.path, "/home");
    assert_eq!(status(&d, "root"), Some(UnModified));
    assert_eq!(status(&d, "home"), Some(UnModified));
    assert!(d.list_modified_filesystems().is_empty());
}

#[test]
fn run_with_no_filesystem_requests_nothing() {
    let mut d = Daemon::new();
    assert!(d.run(Vec::new()).is_empty());
    assert!(d.cache_snapshot().is_empty());
}

#[test]
fn run_with_a_repeated_identifier_watches_it_twice_and_keeps_the_last_path() {
    let mut d = Daemon::new();
    let requests = d.run(vec![fs("a", "/x"), fs("a", "/y")]);
    assert_eq!(requests.len(), 2);
    assert_eq!(requests[1].filesystem.path, "/y");
    assert!(!requests[0].was_watched);
    assert!(requests[1].was_watched);
    // the second watcher cannot be created: the first one is still pending
    d.watcher_failed(&"a".to_string(), requests[1].was_watched);
    assert!(d.mark_filesystem_unmodified(&"a".to_string()).unwrap().is_none());
    d.filesystem_changed(&"a".to_string()).unwrap();
    let again = d.mark_filesystem_unmodified(&"a".to_string()).unwrap().unwrap();
    assert_eq!(again.filesystem.path, "/y");
}

#[test]
fn a_change_makes_the_filesystem_modified_and_listed() {
    let mut d = started(vec![fs("a", "/x"), fs("b", "/y")]);
    d.filesystem_changed(&"a".to_string()).unwrap();
    assert_eq!(status(&d, "a"), Some(Modified));
    assert_eq!(status(&d, "b"), Some(UnModified));
    assert_eq!(d.list_modified_filesystems(), vec!["a".to_string()]);
}

#[test]
fn a_change_of_an_unknown_filesystem_is_an_error() {
    let mut d = started(vec![fs("a", "/x")]);
    match d.filesystem_changed(&"zz".to_string()) {
        Err(FSSentinelError::InvalidFileSystemID(id)) => assert_eq!(id, "zz"),
        other => panic!("unexpected {:?}", other),
    }
    assert_eq!(status(&d, "a"), Some(UnModified));
}

#[test]
fn marking_unmodified_restarts_the_watcher_once() {
    let mut d = started(vec![fs("a", "/x")]);
    d.filesystem_changed(&"a".to_string()).unwrap();
    let request = d.mark_filesystem_unmodified(&"a".to_string()).unwrap();
    let request = request.expect("a watcher must be started again");
    assert_eq!(request.filesystem.id, "a");
    assert_eq!(request.filesystem.path, "/x");
    assert_eq!(status(&d, "a"), Some(UnModified));
    // the watcher is active again: a second mark starts nothing
    assert!(d.mark_filesystem_unmodified(&"a".to_string()).unwrap().is_none());
    assert_eq!(status(&d, "a"), Some(UnModified));
    assert!(d.list_modified_filesystems().is_empty());
}

#[test]
fn marking_a_watched_filesystem_starts_no_watcher() {
    let mut d = started(vec![fs("a", "/x")]);
    assert!(d.mark_filesystem_unmodified(&"a".to_string()).unwrap().is_none());
}

#[test]
fn marking_an_unknown_filesystem_is_an_error() {
    let mut d = started(vec![fs("a", "/x")]);
    assert!(!d.lacks_path_to_rewatch(&"nope".to_string()));
    match d.mark_filesystem_unmodified(&"nope".to_string()) {
        Err(FSSentinelError::InvalidFileSystemID(id)) => assert_eq!(id, "nope"),
        other => panic!("unexpected {:?}", other),
    }
}

#[test]
fn from_cache_restores_statuses_without_monitoring() {
    let d = Daemon::from_cache(vec![("a".to_string(), Modified), ("b".to_string(), UnModified)]);
    assert_eq!(status(&d, "a"), Some(Modified));
    assert_eq!(status(&d, "b"), Some(UnModified));
    // not handed to the daemon: not listed, and cannot be rewatched
    assert!(d.list_modified_filesystems().is_empty());
    assert!(d.lacks_path_to_rewatch(&"a".to_string()));
    assert!(d.lacks_path_to_rewatch(&"b".to_string()));
}

#[test]
fn from_cache_keeps_the_last_entry_of_an_identifier() {
    let d = Daemon::from_cache(vec![("a".to_string(), Modified), ("a".to_string(), UnModified)]);
    assert_eq!(status(&d, "a"), Some(UnModified));
    assert_eq!(d.cache_snapshot().len(), 1);
}

#[test]
fn cache_round_trip_keeps_statuses() {
    let mut d = started(vec![fs("a", "/x"), fs("b", "/y"), fs("c", "/z")]);
    d.filesystem_changed(&"b".to_string()).unwrap();
    let mut snapshot = d.cache_snapshot();
    snapshot.sort_by(|x, y| x.0.cmp(&y.0));
    assert_eq!(
        snapshot,
        vec![("a".to_string(), UnModified), ("b".to_string(), Modified), ("c".to_string(), UnModified)]
    );
    let restored = Daemon::from_cache(snapshot.clone());
    let mut again = restored.cache_snapshot();
    again.sort_by(|x, y| x.0.cmp(&y.0));
    assert_eq!(again, snapshot);
}

#[test]
fn run_after_cache_keeps_a_modified_filesystem_unwatched() {
    let mut d = Daemon::from_cache(vec![("a".to_string(), Modified), ("old".to_string(), Modified)]);
    let requests = d.run(vec![fs("a", "/x"), fs("new", "/n")]);
    assert_eq!(requests.len(), 1);
    assert_eq!(requests[0].filesystem.id, "new");
    assert_eq!(status(&d, "a"), Some(Modified));
    assert_eq!(status(&d, "new"), Some(UnModified));
    // only filesystems handed to the daemon are listed
    assert_eq!(d.list_modified_filesystems(), vec!["a".to_string()]);
    assert!(!d.lacks_path_to_rewatch(&"a".to_string()));
    assert!(d.lacks_path_to_rewatch(&"old".to_string()));
    let request = d.mark_filesystem_unmodified(&"a".to_string()).unwrap().unwrap();
    assert_eq!(request.filesystem.path, "/x");
}

#[test]
fn listing_names_each_modified_filesystem_once() {
    let mut d = started(vec![fs("a", "/a"), fs("b", "/b"), fs("c", "/c")]);
    d.filesystem_changed(&"c".to_string()).unwrap();
    d.filesystem_changed(&"a".to_string()).unwrap();
    d.filesystem_changed(&"a".to_string()).unwrap();
    assert_eq!(sorted(d.list_modified_filesystems()), vec!["a".to_string(), "c".to_string()]);
}

#[test]
fn ipc_status_request() {
    let mut d = started(vec![fs("a", "/x")]);
    match d.process_ipc_input(IPCInput::GetFileSystemStatus("a".to_string())) {
        Ok((IPCOutput::FileSystemStatus(UnModified), None)) => {},
        other => panic!("unexpected {:?}", other),
    }
    d.filesystem_changed(&"a".to_string()).unwrap();
    match d.process_ipc_input(IPCInput::GetFileSystemStatus("a".to_string())) {
        Ok((IPCOutput::FileSystemStatus(Modified), None)) => {},
        other => panic!("unexpected {:?}", other),
    }
}

#[test]
fn ipc_mark_request() {
    let mut d = started(vec![fs("a", "/x")]);
    d.filesystem_changed(&"a".to_string()).unwrap();
    match d.process_ipc_input(IPCInput::MarkFileSystemUnModified("a".to_string())) {
        Ok((IPCOutput::Success, Some(f))) => {
            assert_eq!(f.filesystem.id, "a");
            assert_eq!(f.filesystem.path, "/x");
        },
        other => panic!("unexpected {:?}", other),
    }
    assert_eq!(status(&d, "a"), Some(UnModified));
}

#[test]
fn ipc_list_request() {
    let mut d = started(vec![fs("a", "/x"), fs("b", "/y")]);
    d.filesystem_changed(&"b".to_string()).unwrap();
    match d.process_ipc_input(IPCInput::ListAllModifiedFileSystems) {
        Ok((IPCOutput::FileSystemList(ids), None)) => assert_eq!(ids, vec!["b".to_string()]),
        other => panic!("unexpected {:?}", other),
    }
}

#[test]
fn ipc_request_for_an_unknown_filesystem_is_answered_with_an_error() {
    let mut d = started(vec![fs("a", "/x")]);
    let result = d.process_ipc_input(IPCInput::GetFileSystemStatus("b".to_string()));
    let answer = ipc_response(result.map(|(out, _)| out));
    match answer {
        IPCOutput::DaemonError(msg) => assert_eq!(msg, "invalid filesystem ID: b"),
        other => panic!("unexpected {:?}", other),
    }
    let result = d.process_ipc_input(IPCInput::MarkFileSystemUnModified("b".to_string()));
    assert!(matches!(result, Err(FSSentinelError::InvalidFileSystemID(_))));
}

#[test]
fn ipc_response_passes_answers_through() {
    assert!(matches!(ipc_response(Ok(IPCOutput::Success)), IPCOutput::Success));
    match ipc_response(Err(FSSentinelError::FileSystemWatchError("gone".to_string()))) {
        IPCOutput::DaemonError(msg) => assert_eq!(msg, "couldn't watch filesystem"),
        other => panic!("unexpected {:?}", other),
    }
}

#[test]
fn error_messages() {
    let cases = vec![
        (FSSentinelError::HealthCheckError("x".to_string()), "platform health check failed"),
        (FSSentinelError::CacheError("x".to_string()), "couldn't read/write cache"),
        (FSSentinelError::CacheParse("x".to_string()), "couldn't parse cache"),
        (FSSentinelError::FileSystemWatchError("x".to_string()), "couldn't watch filesystem"),
        (FSSentinelError::InvalidFileSystemID("root".to_string()), "invalid filesystem ID: root"),
        (FSSentinelError::SocketError("x".to_string()), "couldn't use IPC socket"),
        (FSSentinelError::MessageParse("x".to_string()), "couldn't parse IPC message"),
    ];
    for (e, msg) in cases {
        assert_eq!(e.to_string(), msg);
    }
}

#[test]
fn fixed_names() {
    assert_eq!(SOCKET_PATH, "/tmp/fs-sentinel.sock");
    assert_eq!(CACHE_FILE_NAME, "cache.msgpack");
}

#[test]
fn a_failed_watcher_is_asked_for_again_at_the_next_mark() {
    let mut d = started(vec![fs("a", "/x"), fs("b", "/y")]);
    d.filesystem_changed(&"a".to_string()).unwrap();
    let request = d.mark_filesystem_unmodified(&"a".to_string()).unwrap();
    assert!(request.is_some());
    let request = request.unwrap();
    assert!(!request.was_watched);
    // creating that watcher failed
    d.watcher_failed(&"a".to_string(), request.was_watched);
    assert_eq!(status(&d, "a"), Some(UnModified));
    let again = d.mark_filesystem_unmodified(&"a".to_string()).unwrap();
    let again = again.expect("the watcher must be asked for again");
    assert_eq!(again.filesystem.id, "a");
    assert_eq!(again.filesystem.path, "/x");
    // the other filesystem is still watched
    assert!(d.mark_filesystem_unmodified(&"b".to_string()).unwrap().is_none());
}

#[test]
fn a_failed_watcher_of_an_unknown_filesystem_changes_nothing() {
    let mut d = started(vec![fs("a", "/x")]);
    d.watcher_failed(&"zz".to_string(), false);
    assert!(d.get_filesystem_status(&"zz".to_string()).is_err());
    assert!(d.mark_filesystem_unmodified(&"a".to_string()).unwrap().is_none());
}

#[test]
fn a_repeated_change_report_changes_nothing_more() {
    let mut d = started(vec![fs("a", "/x")]);
    d.filesystem_changed(&"a".to_string()).unwrap();
    d.filesystem_changed(&"a".to_string()).unwrap();
    assert_eq!(status(&d, "a"), Some(Modified));
    assert_eq!(d.list_modified_filesystems(), vec!["a".to_string()]);
}

#[test]
fn health_check_outcome() {
    let d = Daemon::after_health_check(None).unwrap();
    assert!(d.cache_snapshot().is_empty());
    match Daemon::after_health_check(Some("no fsnotifywait".to_string())) {
        Err(FSSentinelError::HealthCheckError(detail)) => assert_eq!(detail, "no fsnotifywait"),
        Err(e) => panic!("unexpected {:?}", e),
        Ok(_) => panic!("the health check failed"),
    }
}

#[test]
fn cache_file_path() {
    assert_eq!(get_cache_filepath("/var/cache/fs-sentinel"), "/var/cache/fs-sentinel/cache.msgpack");
    assert_eq!(get_cache_filepath("/var/cache/fs-sentinel/"), "/var/cache/fs-sentinel/cache.msgpack");
    assert_eq!(get_cache_filepath(""), "cache.msgpack");
    assert_eq!(get_cache_filepath("/"), "/cache.msgpack");
}

#[test]
fn a_failed_start_of_a_cached_filesystem_leaves_it_unwatched() {
    let mut d = Daemon::from_cache(vec![("a".to_string(), UnModified)]);
    let requests = d.run(vec![fs("a", "/x")]);
    assert_eq!(requests.len(), 1);
    assert!(!requests[0].was_watched);
    d.watcher_failed(&"a".to_string(), requests[0].was_watched);
    // back to unwatched: the next mark asks for the watcher again
    let again = d.mark_filesystem_unmodified(&"a".to_string()).unwrap().unwrap();
    assert_eq!(again.filesystem.path, "/x");
}
