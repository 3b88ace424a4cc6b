use vstd::prelude::*;

use crate::filesystem::{FileSystem, FileSystemID, FileSystemView};

verus! {

/// The program that watches a filesystem on Linux; it uses the fanotify API.
pub const FSNOTIFYWAIT_PROGRAM: &'static str = "fsnotifywait";

/// The events that count as a modification of a filesystem.
pub const WATCHED_EVENTS: &'static str = "modify,attrib,close_write,moved_to,moved_from,move_self,create,delete,delete_self";

/// The platform-specific behaviour of Linux.
#[derive(Debug)]
pub struct Linux;

/// Failures of the Linux platform.
#[derive(Debug)]
pub enum Error {
    /// `fsnotifywait` could not be started.
    MissingFSNotifyWait,
    /// The path of a filesystem does not exist or cannot be accessed.
    InvalidFileSystemPath(String),
}

impl Error {
    /// The text that describes the error to a user.
    pub open spec fn message_spec(&self) -> Seq<char> {
        match self {
            Error::MissingFSNotifyWait => "can't find fsnotifywait binary in PATH; see README for more details"@,
            Error::InvalidFileSystemPath(_) => "filesystem path doesn't exist or isn't accessible"@,
        }
    }

    /// The text that describes the error to a user.
    pub fn to_string(&self) -> (s: String)
        ensures
            s@ == self.message_spec(),
    {
        match self {
            Error::MissingFSNotifyWait => String::from_str(
                "can't find fsnotifywait binary in PATH; see README for more details",
            ),
            Error::InvalidFileSystemPath(_) => String::from_str(
                "filesystem path doesn't exist or isn't accessible",
            ),
        }
    }
}

/// A watcher of one filesystem that runs `fsnotifywait` and ends at the first
/// modification.
#[derive(Debug)]
pub struct FSNotifyWaitWatcher(FileSystem);

impl View for FSNotifyWaitWatcher {
    type V = FileSystemView;

    closed spec fn view(&self) -> FileSystemView {
        self.0@
    }
}

impl Linux {
    /// The directory that holds the cache.
    pub fn get_cache_directory(&self) -> (dir: String)
        ensures
            dir@ == "/var/cache/fs-sentinel"@,
    {
        String::from_str("/var/cache/fs-sentinel")
    }

    /// A watcher for `filesystem`, whose path may be any directory in the
    /// filesystem; an error if that path does not exist (`path_exists` tells
    /// whether it does).
    pub fn get_filesystem_watcher(&self, filesystem: FileSystem, path_exists: bool) -> (r: Result<
        FSNotifyWaitWatcher,
        Error,
    >)
        ensures
            path_exists ==> (r matches Ok(w) && w@ == filesystem@),
            !path_exists ==> (r matches Err(Error::InvalidFileSystemPath(p)) && p@ == filesystem.path@),
    {
        if !path_exists {
            return Err(Error::InvalidFileSystemPath(filesystem.path));
        }
        Ok(FSNotifyWaitWatcher(filesystem))
    }

    /// The platform is usable when `fsnotifywait` can be started
    /// (`fsnotifywait_started` tells whether it could).
    pub fn health_check(&self, fsnotifywait_started: bool) -> (r: Result<(), Error>)
        ensures
            fsnotifywait_started ==> r is Ok,
            !fsnotifywait_started ==> r matches Err(Error::MissingFSNotifyWait),
    {
        if fsnotifywait_started {
            Ok(())
        } else {
            Err(Error::MissingFSNotifyWait)
        }
    }
}

impl FSNotifyWaitWatcher {
    /// The arguments of `fsnotifywait`: quiet output, the whole filesystem
    /// that holds the path, only the events that modify it, then the path.
    pub fn command_args(&self) -> (args: Vec<String>)
        ensures
            args@.map_values(|a: String| a@) == seq![
                "--quiet"@,
                "--filesystem"@,
                "--event"@,
                WATCHED_EVENTS@,
                self@.path,
            ],
    {
        let mut args: Vec<String> = Vec::new();
        args.push(String::from_str("--quiet"));
        args.push(String::from_str("--filesystem"));
        args.push(String::from_str("--event"));
        args.push(String::from_str(WATCHED_EVENTS));
        args.push(self.0.path.clone());
        assert(args@.map_values(|a: String| a@) =~= seq![
            "--quiet"@,
            "--filesystem"@,
            "--event"@,
            WATCHED_EVENTS@,
            self@.path,
        ]);
        args
    }

    /// The identifier of the watched filesystem, which the watcher yields
    /// once a change happened.
    pub fn filesystem_id(self) -> (id: FileSystemID)
        ensures
            id@ == self@.id,
    {
        self.0.id
    }
}

} // verus!
