use vstd::prelude::*;

use crate::filesystem::FileSystemID;

verus! {

/// Errors of the daemon.  Variants that wrap a failure of the platform or of
/// the operating system carry that failure's description.
#[derive(Debug)]
pub enum FSSentinelError {
    /// The platform's health check failed.
    HealthCheckError(String),
    /// The cache could not be read or written.
    CacheError(String),
    /// The cache could not be decoded.
    CacheParse(String),
    /// The platform could not create a watcher for a filesystem.
    FileSystemWatchError(String),
    /// No filesystem with this identifier is known.
    InvalidFileSystemID(FileSystemID),
    /// The IPC socket failed.
    SocketError(String),
    /// An IPC message could not be decoded.
    MessageParse(String),
}

/// `r` is the error for an unknown filesystem identifier `id`.
pub open spec fn is_invalid_id_error<T>(r: Result<T, FSSentinelError>, id: Seq<char>) -> bool {
    match r {
        Err(FSSentinelError::InvalidFileSystemID(e)) => e@ == id,
        _ => false,
    }
}

impl FSSentinelError {
    /// The text that describes the error to a user.
    pub open spec fn message_spec(&self) -> Seq<char> {
        match self {
            FSSentinelError::HealthCheckError(_) => "platform health check failed"@,
            FSSentinelError::CacheError(_) => "couldn't read/write cache"@,
            FSSentinelError::CacheParse(_) => "couldn't parse cache"@,
            FSSentinelError::FileSystemWatchError(_) => "couldn't watch filesystem"@,
            FSSentinelError::InvalidFileSystemID(id) => "invalid filesystem ID: "@ + id@,
            FSSentinelError::SocketError(_) => "couldn't use IPC socket"@,
            FSSentinelError::MessageParse(_) => "couldn't parse IPC message"@,
        }
    }

    /// The text that describes the error to a user.
    pub fn to_string(&self) -> (s: String)
        ensures
            s@ == self.message_spec(),
    {
        match self {
            FSSentinelError::HealthCheckError(_) => String::from_str("platform health check failed"),
            FSSentinelError::CacheError(_) => String::from_str("couldn't read/write cache"),
            FSSentinelError::CacheParse(_) => String::from_str("couldn't parse cache"),
            FSSentinelError::FileSystemWatchError(_) => String::from_str("couldn't watch filesystem"),
            FSSentinelError::InvalidFileSystemID(id) => {
                let mut s = String::from_str("invalid filesystem ID: ");
                s.append(id.as_str());
                s
            },
            FSSentinelError::SocketError(_) => String::from_str("couldn't use IPC socket"),
            FSSentinelError::MessageParse(_) => String::from_str("couldn't parse IPC message"),
        }
    }
}

} // verus!
