use vstd::prelude::*;

use crate::filesystem::FileSystemModificationStatus;

verus! {

/// What the daemon knows of one filesystem.
#[derive(Debug)]
pub struct FileSystemState {
    /// The path given on the command line, if the filesystem was given there.
    pub path: Option<String>,
    /// Current modification status.
    pub status: FileSystemModificationStatus,
    /// Whether a watcher is currently waiting for a change of this filesystem.
    pub has_active_watcher: bool,
    /// Whether the filesystem was handed to the daemon when it started.
    pub is_daemon_monitoring: bool,
}

/// The plain value of a [`FileSystemState`].
pub struct FileSystemStateView {
    pub path: Option<Seq<char>>,
    pub status: FileSystemModificationStatus,
    pub has_active_watcher: bool,
    pub is_daemon_monitoring: bool,
}

pub open spec fn option_string_view(o: Option<String>) -> Option<Seq<char>> {
    match o {
        Some(s) => Some(s@),
        None => None,
    }
}

impl View for FileSystemState {
    type V = FileSystemStateView;

    open spec fn view(&self) -> FileSystemStateView {
        FileSystemStateView {
            path: option_string_view(self.path),
            status: self.status,
            has_active_watcher: self.has_active_watcher,
            is_daemon_monitoring: self.is_daemon_monitoring,
        }
    }
}

/// A state is consistent when exactly the filesystems handed to the daemon
/// at start have a path, and only those can have an active watcher.
pub open spec fn state_consistent(st: FileSystemStateView) -> bool {
    &&& (st.path is Some <==> st.is_daemon_monitoring)
    &&& (st.has_active_watcher ==> st.is_daemon_monitoring)
}

pub fn clone_path(o: &Option<String>) -> (r: Option<String>)
    ensures
        option_string_view(r) == option_string_view(*o),
{
    match o {
        Some(p) => Some(p.clone()),
        None => None,
    }
}

impl Clone for FileSystemState {
    fn clone(&self) -> (r: FileSystemState)
        ensures
            r@ == self@,
    {
        FileSystemState {
            path: clone_path(&self.path),
            status: self.status,
            has_active_watcher: self.has_active_watcher,
            is_daemon_monitoring: self.is_daemon_monitoring,
        }
    }
}

} // verus!
