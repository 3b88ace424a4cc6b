use vstd::prelude::*;

verus! {

/// Identifier of a watched filesystem, as given on the command line.
pub type FileSystemID = String;

/// Whether a filesystem has changed since it was last marked unmodified.
#[derive(Clone, Copy, Debug, PartialEq, Eq, Structural)]
pub enum FileSystemModificationStatus {
    Modified,
    UnModified,
}

/// A filesystem identifier together with a path contained in that
/// filesystem; what the path must satisfy is up to the platform.
#[derive(Debug)]
pub struct FileSystem {
    pub id: FileSystemID,
    pub path: String,
}

/// The plain value of a [`FileSystem`].
pub struct FileSystemView {
    pub id: Seq<char>,
    pub path: Seq<char>,
}

impl View for FileSystem {
    type V = FileSystemView;

    open spec fn view(&self) -> FileSystemView {
        FileSystemView { id: self.id@, path: self.path@ }
    }
}

impl FileSystem {
    /// Builds a filesystem from its identifier and path.
    pub fn new(id: String, path: String) -> (fs: FileSystem)
        ensures
            fs.id@ == id@,
            fs.path@ == path@,
    {
        FileSystem { id, path }
    }

}

/// A watcher the caller must create: for which filesystem, and whether the
/// filesystem was already marked as watched before the request (so that a
/// failed creation can put that mark back).
#[derive(Debug)]
pub struct WatchRequest {
    pub filesystem: FileSystem,
    pub was_watched: bool,
}

/// The plain value of a [`WatchRequest`].
pub struct WatchRequestView {
    pub filesystem: FileSystemView,
    pub was_watched: bool,
}

impl View for WatchRequest {
    type V = WatchRequestView;

    open spec fn view(&self) -> WatchRequestView {
        WatchRequestView { filesystem: self.filesystem@, was_watched: self.was_watched }
    }
}

impl Clone for FileSystem {
    fn clone(&self) -> (fs: FileSystem)
        ensures
            fs@ == self@,
    {
        FileSystem { id: self.id.clone(), path: self.path.clone() }
    }
}

} // verus!

