use vstd::prelude::*;

use crate::daemon::Daemon;
use crate::error::{is_invalid_id_error, FSSentinelError};
use crate::filesystem::{FileSystemID, FileSystemModificationStatus, WatchRequest};
use crate::model::{lacks_path_to_rewatch, lists_modified, mark_model, option_request_view};

verus! {

/// Where the daemon listens for client requests.
pub const SOCKET_PATH: &'static str = "/tmp/fs-sentinel.sock";

/// Requests a client can send to the daemon.
#[derive(Debug)]
pub enum IPCInput {
    GetFileSystemStatus(FileSystemID),
    MarkFileSystemUnModified(FileSystemID),
    ListAllModifiedFileSystems,
}

/// The daemon's answers to [`IPCInput`] requests.
#[derive(Debug)]
pub enum IPCOutput {
    DaemonError(String),
    Success,
    FileSystemStatus(FileSystemModificationStatus),
    FileSystemList(Vec<FileSystemID>),
}

/// The daemon can serve `input` in state `m`: a request to mark a filesystem
/// unmodified must not need a watcher for a filesystem without a path.
pub open spec fn servable(m: crate::registry::StateMap, input: IPCInput) -> bool {
    match input {
        IPCInput::MarkFileSystemUnModified(id) => !lacks_path_to_rewatch(m, id@),
        _ => true,
    }
}

impl Daemon {
    /// Serves a client request.  Returns the answer and the watcher that
    /// must be created before the answer is final, if any.
    pub fn process_ipc_input(&mut self, input: IPCInput) -> (r: Result<
        (IPCOutput, Option<WatchRequest>),
        FSSentinelError,
    >)
        requires
            old(self).wf(),
            servable(old(self)@, input),
        ensures
            final(self).wf(),
            match input {
                IPCInput::GetFileSystemStatus(id) => {
                    &&& final(self)@ == old(self)@
                    &&& old(self)@.contains_key(id@) ==> (r matches Ok((IPCOutput::FileSystemStatus(s), None))
                        && s == old(self)@[id@].status)
                    &&& !old(self)@.contains_key(id@) ==> is_invalid_id_error(r, id@)
                },
                IPCInput::MarkFileSystemUnModified(id) => {
                    &&& old(self)@.contains_key(id@) ==> (r matches Ok((IPCOutput::Success, req)) && (
                    final(self)@,
                    option_request_view(req),
                ) == mark_model(old(self)@, id@, FileSystemModificationStatus::UnModified))
                    &&& !old(self)@.contains_key(id@) ==> final(self)@ == old(self)@
                        && is_invalid_id_error(r, id@)
                },
                IPCInput::ListAllModifiedFileSystems => {
                    &&& final(self)@ == old(self)@
                    &&& r matches Ok((IPCOutput::FileSystemList(ids), None)) && lists_modified(
                        old(self)@,
                        ids@.map_values(|s: String| s@),
                    )
                },
            },
    {
        match input {
            IPCInput::GetFileSystemStatus(id) => {
                match self.get_filesystem_status(&id) {
                    Ok(status) => Ok((IPCOutput::FileSystemStatus(status), None)),
                    Err(e) => Err(e),
                }
            },
            IPCInput::MarkFileSystemUnModified(id) => {
                match self.mark_filesystem_unmodified(&id) {
                    Ok(request) => Ok((IPCOutput::Success, request)),
                    Err(e) => Err(e),
                }
            },
            IPCInput::ListAllModifiedFileSystems => {
                let ids = self.list_modified_filesystems();
                Ok((IPCOutput::FileSystemList(ids), None))
            },
        }
    }
}

/// The answer sent to a client: the result itself, or the error's
/// description.
pub fn ipc_response(result: Result<IPCOutput, FSSentinelError>) -> (out: IPCOutput)
    ensures
        match result {
            Ok(o) => out == o,
            Err(e) => out matches IPCOutput::DaemonError(msg) && msg@ == e.message_spec(),
        },
{
    match result {
        Ok(o) => o,
        Err(e) => IPCOutput::DaemonError(e.to_string()),
    }
}

} // verus!
