use vstd::prelude::*;

use crate::error::{is_invalid_id_error, FSSentinelError};
use crate::filesystem::{
    FileSystem, FileSystemID, FileSystemModificationStatus, FileSystemView, WatchRequest,
    WatchRequestView,
};
use crate::model::{
    cache_of, entries_to_map, entries_view, is_listed_modified, lacks_path_to_rewatch, lists_modified,
    mark_model, option_request_view,
    register_model, restore, restored_state, run_model, start_monitoring_model, watcher_failed_model,
};
use crate::registry::{registry_consistent, Registry, StateMap};
use crate::state::{clone_path, FileSystemState};

verus! {

/// Name of the cache file inside the platform's cache directory.
pub const CACHE_FILE_NAME: &'static str = "cache.msgpack";

/// The path of the cache file in the directory `dir`: the directory, then a
/// `/` unless the directory is empty or already ends with one, then
/// [`CACHE_FILE_NAME`].
pub open spec fn cache_filepath_spec(dir: Seq<char>) -> Seq<char> {
    if dir.len() == 0 {
        CACHE_FILE_NAME@
    } else if dir.last() == '/' {
        dir + CACHE_FILE_NAME@
    } else {
        dir + "/"@ + CACHE_FILE_NAME@
    }
}

/// The path of the cache file in the platform's cache directory
/// `cache_directory` (Unix paths).
pub fn get_cache_filepath(cache_directory: &str) -> (path: String)
    ensures
        path@ == cache_filepath_spec(cache_directory@),
{
    let n = cache_directory.unicode_len();
    if n == 0 {
        return String::from_str(CACHE_FILE_NAME);
    }
    let mut path = String::from_str(cache_directory);
    if cache_directory.get_char(n - 1) != '/' {
        path.append("/");
    }
    path.append(CACHE_FILE_NAME);
    path
}

/// The daemon's bookkeeping: for each filesystem identifier, what is known
/// of it.  Each method handles one event and says which watcher, if any,
/// the caller must start.
pub struct Daemon {
    filesystem_states: Registry,
}

impl View for Daemon {
    type V = StateMap;

    closed spec fn view(&self) -> StateMap {
        self.filesystem_states@
    }
}

impl Daemon {
    /// The bookkeeping is well formed.
    pub closed spec fn wf(&self) -> bool {
        self.filesystem_states.wf()
    }

    /// A well-formed daemon knows finitely many filesystems, each in a
    /// consistent state.
    pub proof fn lemma_consistent(&self)
        requires
            self.wf(),
        ensures
            registry_consistent(self@),
            self@.dom().finite(),
    {
        self.filesystem_states.lemma_wf_consistent();
    }

    /// A daemon that knows no filesystem.
    pub fn new() -> (d: Daemon)
        ensures
            d.wf(),
            d@ == Map::<Seq<char>, crate::state::FileSystemStateView>::empty(),
    {
        Daemon { filesystem_states: Registry::new() }
    }

    /// A daemon that knows the filesystems of a cache, each with its cached
    /// status, no path, no watcher, and not handed to the daemon.  A later
    /// entry for an identifier replaces an earlier one.
    pub fn from_cache(cache: Vec<(FileSystemID, FileSystemModificationStatus)>) -> (d: Daemon)
        ensures
            d.wf(),
            d@ == restore(entries_to_map(entries_view(cache@))),
    {
        let mut states = Registry::new();
        let n = cache.len();
        let ghost ev = entries_view(cache@);
        assert(ev.take(0) =~= Seq::<(Seq<char>, FileSystemModificationStatus)>::empty());
        assert(states@ =~= restore(entries_to_map(ev.take(0))));
        let mut i: usize = 0;
        while i < n
            invariant
                n == cache@.len(),
                ev == entries_view(cache@),
                i <= n,
                states.wf(),
                states@ == restore(entries_to_map(ev.take(i as int))),
            decreases n - i,
        {
            let id = cache[i].0.clone();
            let status = cache[i].1;
            let st = FileSystemState {
                path: None,
                status,
                has_active_watcher: false,
                is_daemon_monitoring: false,
            };
            let ghost before = states@;
            states.insert(id, st);
            proof {
                let t = ev.take(i + 1);
                assert(t.drop_last() =~= ev.take(i as int));
                assert(t.last() == ev[i as int]);
                assert(entries_to_map(t) == entries_to_map(ev.take(i as int)).insert(ev[i as int].0, status));
                assert(restore(entries_to_map(t)) =~= before.insert(ev[i as int].0, restored_state(status)));
            }
            i = i + 1;
        }
        assert(ev.take(n as int) =~= ev);
        Daemon { filesystem_states: states }
    }

    /// The cache of the daemon: each known filesystem once, with its status.
    pub fn cache_snapshot(&self) -> (c: Vec<(FileSystemID, FileSystemModificationStatus)>)
        requires
            self.wf(),
        ensures
            crate::model::entry_keys_distinct(entries_view(c@)),
            entries_to_map(entries_view(c@)) == cache_of(self@),
    {
        let n = self.filesystem_states.len();
        let mut c: Vec<(FileSystemID, FileSystemModificationStatus)> = Vec::new();
        proof { self.filesystem_states.lemma_positions(); }
        let mut i: usize = 0;
        while i < n
            invariant
                self.wf(),
                n == self.filesystem_states.spec_len(),
                i <= n,
                c@.len() == i,
                forall|j: int| 0 <= j < i ==> (#[trigger] c@[j]).0@ == self.filesystem_states.id_at(j),
                forall|j: int|
                    0 <= j < i ==> (#[trigger] c@[j]).1 == self@[self.filesystem_states.id_at(j)].status,
            decreases n - i,
        {
            let id = self.filesystem_states.id(i).clone();
            let status = self.filesystem_states.state(i).status;
            c.push((id, status));
            i = i + 1;
        }
        proof {
            let ev = entries_view(c@);
            self.filesystem_states.lemma_positions();
            assert(crate::model::entry_keys_distinct(ev)) by {
                assert forall|a: int, b: int| 0 <= a < ev.len() && 0 <= b < ev.len() && a != b implies #[trigger] ev[a].0
                    != #[trigger] ev[b].0 by {
                    assert(ev[a].0 == self.filesystem_states.id_at(a));
                    assert(ev[b].0 == self.filesystem_states.id_at(b));
                }
            }
            crate::model::lemma_entries_to_map_distinct(ev);
            let m = entries_to_map(ev);
            assert forall|k: Seq<char>| #[trigger] m.contains_key(k) implies cache_of(self@).contains_key(k) && m[k]
                == cache_of(self@)[k] by {
                let j = choose|j: int| 0 <= j < ev.len() && ev[j].0 == k;
                assert(ev[j].0 == self.filesystem_states.id_at(j));
            }
            assert forall|k: Seq<char>| #[trigger] cache_of(self@).contains_key(k) implies m.contains_key(k) by {
                assert(self@.contains_key(k));
                let j = choose|j: int| 0 <= j < self.filesystem_states.spec_len() && #[trigger] self.filesystem_states.id_at(j) == k;
                assert(ev[j].0 == k);
            }
            assert(m =~= cache_of(self@));
        }
        c
    }

    /// The status of the filesystem `fs_id`; an error if no filesystem has
    /// that identifier.
    pub fn get_filesystem_status(&self, fs_id: &FileSystemID) -> (r: Result<
        FileSystemModificationStatus,
        FSSentinelError,
    >)
        requires
            self.wf(),
        ensures
            self@.contains_key(fs_id@) ==> r == Ok::<FileSystemModificationStatus, FSSentinelError>(
                self@[fs_id@].status,
            ),
            !self@.contains_key(fs_id@) ==> is_invalid_id_error(r, fs_id@),
    {
        match self.filesystem_states.find(fs_id) {
            Some(i) => Ok(self.filesystem_states.state(i).status),
            None => Err(FSSentinelError::InvalidFileSystemID(fs_id.clone())),
        }
    }

    /// Whether marking `fs_id` unmodified would need to restart a watcher
    /// for a filesystem that has no recorded path (one known only from the
    /// cache).  Such a request cannot be served.
    pub fn lacks_path_to_rewatch(&self, fs_id: &FileSystemID) -> (b: bool)
        requires
            self.wf(),
        ensures
            b == lacks_path_to_rewatch(self@, fs_id@),
    {
        match self.filesystem_states.find(fs_id) {
            Some(i) => {
                let st = self.filesystem_states.state(i);
                !st.has_active_watcher && st.path.is_none()
            },
            None => false,
        }
    }

    /// Starts watching `fs`; returns the watcher that must be created, if any.
    fn start_monitoring_filesystem(&mut self, fs: FileSystem) -> (r: Option<WatchRequest>)
        requires
            old(self).wf(),
            old(self)@.contains_key(fs.id@) ==> old(self)@[fs.id@].is_daemon_monitoring,
        ensures
            final(self).wf(),
            (final(self)@, option_request_view(r)) == start_monitoring_model(old(self)@, fs@),
    {
        proof { self.lemma_consistent(); }
        match self.filesystem_states.find(&fs.id) {
            None => {
                let st = FileSystemState {
                    path: Some(fs.path.clone()),
                    status: FileSystemModificationStatus::UnModified,
                    has_active_watcher: true,
                    is_daemon_monitoring: true,
                };
                self.filesystem_states.push(fs.id.clone(), st);
                Some(WatchRequest { filesystem: fs, was_watched: false })
            },
            Some(i) => {
                let old_st = self.filesystem_states.state(i);
                if old_st.status == FileSystemModificationStatus::Modified {
                    // there is nothing left to detect
                    None
                } else {
                    let was_watched = old_st.has_active_watcher;
                    let st = FileSystemState {
                        path: clone_path(&old_st.path),
                        status: old_st.status,
                        has_active_watcher: true,
                        is_daemon_monitoring: old_st.is_daemon_monitoring,
                    };
                    self.filesystem_states.set_state(i, st);
                    Some(WatchRequest { filesystem: fs, was_watched })
                }
            },
        }
    }

    /// Sets the status of `fs_id`; returns the watcher that must be created,
    /// if any.
    fn mark_filesystem_status(
        &mut self,
        fs_id: &FileSystemID,
        new_status: FileSystemModificationStatus,
    ) -> (r: Result<Option<WatchRequest>, FSSentinelError>)
        requires
            old(self).wf(),
            new_status == FileSystemModificationStatus::UnModified ==> !lacks_path_to_rewatch(
                old(self)@,
                fs_id@,
            ),
        ensures
            final(self).wf(),
            old(self)@.contains_key(fs_id@) ==> (r matches Ok(req) && (final(self)@, option_request_view(req))
                == mark_model(old(self)@, fs_id@, new_status)),
            !old(self)@.contains_key(fs_id@) ==> final(self)@ == old(self)@ && is_invalid_id_error(
                r,
                fs_id@,
            ),
    {
        proof { self.lemma_consistent(); }
        let i = match self.filesystem_states.find(fs_id) {
            Some(i) => i,
            None => {
                return Err(FSSentinelError::InvalidFileSystemID(fs_id.clone()));
            },
        };
        let old_st = self.filesystem_states.state(i);
        let has_active_watcher = old_st.has_active_watcher;
        let path = clone_path(&old_st.path);
        let st = FileSystemState {
            path: clone_path(&old_st.path),
            status: new_status,
            has_active_watcher: match new_status {
                FileSystemModificationStatus::Modified => false,
                FileSystemModificationStatus::UnModified => has_active_watcher,
            },
            is_daemon_monitoring: old_st.is_daemon_monitoring,
        };
        self.filesystem_states.set_state(i, st);
        let ghost m1 = self@;
        match new_status {
            FileSystemModificationStatus::Modified => Ok(None),
            FileSystemModificationStatus::UnModified => {
                if has_active_watcher {
                    Ok(None)
                } else {
                    let path = match path {
                        Some(p) => p,
                        None => {
                            assert(false);
                            String::new()
                        },
                    };
                    let r = self.start_monitoring_filesystem(FileSystem { id: fs_id.clone(), path });
                    proof {
                        assert(m1.contains_key(fs_id@));
                        assert(self@ =~= mark_model(old(self)@, fs_id@, new_status).0);
                    }
                    Ok(r)
                }
            },
        }
    }

    /// Marks `fs_id` unmodified, so that the next change of the filesystem
    /// is detected; returns the watcher that must be created again, if any.  An error if no filesystem has that
    /// identifier.
    pub fn mark_filesystem_unmodified(&mut self, fs_id: &FileSystemID) -> (r: Result<
        Option<WatchRequest>,
        FSSentinelError,
    >)
        requires
            old(self).wf(),
            !lacks_path_to_rewatch(old(self)@, fs_id@),
        ensures
            final(self).wf(),
            old(self)@.contains_key(fs_id@) ==> (r matches Ok(req) && (final(self)@, option_request_view(req))
                == mark_model(old(self)@, fs_id@, FileSystemModificationStatus::UnModified)),
            !old(self)@.contains_key(fs_id@) ==> final(self)@ == old(self)@ && is_invalid_id_error(
                r,
                fs_id@,
            ),
    {
        self.mark_filesystem_status(fs_id, FileSystemModificationStatus::UnModified)
    }

    /// A watcher reported a change of `fs_id`: the filesystem is modified and
    /// its watcher is gone.  An error if no filesystem has that identifier.
    pub fn filesystem_changed(&mut self, fs_id: &FileSystemID) -> (r: Result<(), FSSentinelError>)
        requires
            old(self).wf(),
        ensures
            final(self).wf(),
            old(self)@.contains_key(fs_id@) ==> (r is Ok && final(self)@ == mark_model(
                old(self)@,
                fs_id@,
                FileSystemModificationStatus::Modified,
            ).0),
            !old(self)@.contains_key(fs_id@) ==> final(self)@ == old(self)@ && is_invalid_id_error(
                r,
                fs_id@,
            ),
    {
        match self.mark_filesystem_status(fs_id, FileSystemModificationStatus::Modified) {
            Ok(_) => Ok(()),
            Err(e) => Err(e),
        }
    }

    /// Records `fs` as handed to the daemon at start, with its path; a new
    /// filesystem starts unmodified and unwatched.
    fn register_filesystem(&mut self, fs: &FileSystem)
        requires
            old(self).wf(),
        ensures
            final(self).wf(),
            final(self)@ == register_model(old(self)@, fs@),
    {
        proof { self.lemma_consistent(); }
        match self.filesystem_states.find(&fs.id) {
            Some(i) => {
                let old_st = self.filesystem_states.state(i);
                let st = FileSystemState {
                    path: Some(fs.path.clone()),
                    status: old_st.status,
                    has_active_watcher: old_st.has_active_watcher,
                    is_daemon_monitoring: true,
                };
                self.filesystem_states.set_state(i, st);
            },
            None => {
                let st = FileSystemState {
                    path: Some(fs.path.clone()),
                    status: FileSystemModificationStatus::UnModified,
                    has_active_watcher: false,
                    is_daemon_monitoring: true,
                };
                self.filesystem_states.push(fs.id.clone(), st);
            },
        }
    }

    /// Starts the daemon on the filesystems `paths`: each in turn is
    /// recorded with its path and watched unless it is already modified.
    /// Returns, in order, the watchers that must be created.
    pub fn run(&mut self, paths: Vec<FileSystem>) -> (requests: Vec<WatchRequest>)
        requires
            old(self).wf(),
        ensures
            final(self).wf(),
            (final(self)@, requests@.map_values(|q: WatchRequest| q@)) == run_model(
                old(self)@,
                paths@.map_values(|f: FileSystem| f@),
            ),
    {
        let ghost pv = paths@.map_values(|f: FileSystem| f@);
        let ghost m0 = self@;
        let mut requests: Vec<WatchRequest> = Vec::new();
        let n = paths.len();
        assert(pv.take(0) =~= Seq::<FileSystemView>::empty());
        assert(requests@.map_values(|q: WatchRequest| q@) =~= Seq::<WatchRequestView>::empty());
        let mut i: usize = 0;
        while i < n
            invariant
                n == paths@.len(),
                pv == paths@.map_values(|f: FileSystem| f@),
                i <= n,
                self.wf(),
                (self@, requests@.map_values(|q: WatchRequest| q@)) == run_model(m0, pv.take(i as int)),
            decreases n - i,
        {
            let fs = paths[i].clone();
            let ghost m1 = self@;
            let ghost r1 = requests@.map_values(|q: WatchRequest| q@);
            self.register_filesystem(&fs);
            proof { assert(self@.contains_key(fs.id@) && self@[fs.id@].is_daemon_monitoring); }
            let r = self.start_monitoring_filesystem(fs);
            match r {
                Some(f) => {
                    requests.push(f);
                },
                None => {},
            }
            proof {
                let t = pv.take(i + 1);
                assert(t.drop_last() =~= pv.take(i as int));
                assert(t.last() == pv[i as int]);
                assert(requests@.map_values(|q: WatchRequest| q@) =~= match option_request_view(r) {
                    Some(f) => r1.push(f),
                    None => r1,
                });
            }
            i = i + 1;
        }
        assert(pv.take(n as int) =~= pv);
        requests
    }

    /// The identifiers of the filesystems that were handed to the daemon at
    /// start and are modified, each once.
    pub fn list_modified_filesystems(&self) -> (ids: Vec<FileSystemID>)
        requires
            self.wf(),
        ensures
            lists_modified(self@, ids@.map_values(|s: String| s@)),
    {
        let n = self.filesystem_states.len();
        let mut ids: Vec<FileSystemID> = Vec::new();
        proof { self.filesystem_states.lemma_positions(); }
        let mut i: usize = 0;
        while i < n
            invariant
                self.wf(),
                n == self.filesystem_states.spec_len(),
                i <= n,
                forall|j: int|
                    0 <= j < ids@.len() ==> exists|a: int|
                        0 <= a < i && #[trigger] ids@[j]@ == self.filesystem_states.id_at(a)
                            && is_listed_modified(self@[self.filesystem_states.id_at(a)]),
                forall|a: int|
                    0 <= a < i && is_listed_modified(self@[#[trigger] self.filesystem_states.id_at(a)])
                        ==> exists|j: int| 0 <= j < ids@.len() && ids@[j]@ == self.filesystem_states.id_at(a),
                ids@.map_values(|s: String| s@).no_duplicates(),
            decreases n - i,
        {
            let st = self.filesystem_states.state(i);
            if st.is_daemon_monitoring && st.status == FileSystemModificationStatus::Modified {
                let ghost before = ids@;
                let id = self.filesystem_states.id(i).clone();
                proof {
                    self.filesystem_states.lemma_positions();
                    assert forall|j: int| 0 <= j < before.len() implies before[j]@ != id@ by {
                        let a = choose|a: int|
                            0 <= a < i && #[trigger] before[j]@ == self.filesystem_states.id_at(a)
                                && is_listed_modified(self@[self.filesystem_states.id_at(a)]);
                        assert(self.filesystem_states.id_at(a) != self.filesystem_states.id_at(i as int));
                    }
                }
                ids.push(id);
                proof {
                    assert forall|j: int| 0 <= j < ids@.len() implies exists|a: int|
                        0 <= a < i + 1 && #[trigger] ids@[j]@ == self.filesystem_states.id_at(a)
                            && is_listed_modified(self@[self.filesystem_states.id_at(a)]) by {
                        if j < before.len() {
                            assert(ids@[j] == before[j]);
                        } else {
                            assert(ids@[j]@ == self.filesystem_states.id_at(i as int));
                        }
                    }
                    assert forall|a: int|
                        0 <= a < i + 1 && is_listed_modified(self@[#[trigger] self.filesystem_states.id_at(a)])
                        implies exists|j: int| 0 <= j < ids@.len() && ids@[j]@ == self.filesystem_states.id_at(a) by {
                        if a < i {
                            let j = choose|j: int| 0 <= j < before.len() && before[j]@ == self.filesystem_states.id_at(a);
                            assert(ids@[j] == before[j]);
                        } else {
                            assert(ids@[before.len() as int]@ == self.filesystem_states.id_at(a));
                        }
                    }
                    let sv = ids@.map_values(|s: String| s@);
                    assert forall|x: int, y: int| 0 <= x < sv.len() && 0 <= y < sv.len() && x != y implies sv[x] != sv[y] by {
                        if x < before.len() && y < before.len() {
                            assert(ids@[x] == before[x] && ids@[y] == before[y]);
                            assert(before.map_values(|s: String| s@)[x] == sv[x]);
                            assert(before.map_values(|s: String| s@)[y] == sv[y]);
                        } else if x < before.len() {
                            assert(ids@[x] == before[x]);
                        } else if y < before.len() {
                            assert(ids@[y] == before[y]);
                        }
                    }
                }
            }
            i = i + 1;
        }
        proof {
            let sv = ids@.map_values(|s: String| s@);
            let target = Set::new(|k: Seq<char>| self@.contains_key(k) && is_listed_modified(self@[k]));
            assert forall|k: Seq<char>| sv.to_set().contains(k) implies target.contains(k) by {
                let j = choose|j: int| 0 <= j < sv.len() && sv[j] == k;
                assert(ids@[j]@ == k);
                let a = choose|a: int|
                    0 <= a < n && #[trigger] ids@[j]@ == self.filesystem_states.id_at(a)
                        && is_listed_modified(self@[self.filesystem_states.id_at(a)]);
            }
            assert forall|k: Seq<char>| target.contains(k) implies sv.to_set().contains(k) by {
                let a = choose|a: int| 0 <= a < self.filesystem_states.spec_len() && #[trigger] self.filesystem_states.id_at(a) == k;
                let j = choose|j: int| 0 <= j < ids@.len() && ids@[j]@ == self.filesystem_states.id_at(a);
                assert(sv[j] == k);
            }
            assert(sv.to_set() =~= target);
        }
        ids
    }

    /// The daemon after the platform's health check: empty when the check
    /// passed (`health_failure` is `None`), otherwise the health-check error
    /// with the platform's description.
    pub fn after_health_check(health_failure: Option<String>) -> (r: Result<Daemon, FSSentinelError>)
        ensures
            match health_failure {
                None => r matches Ok(d) && d.wf() && d@ == Map::<
                    Seq<char>,
                    crate::state::FileSystemStateView,
                >::empty(),
                Some(detail) => r matches Err(FSSentinelError::HealthCheckError(e)) && e@ == detail@,
            },
    {
        match health_failure {
            None => Ok(Daemon::new()),
            Some(detail) => Err(FSSentinelError::HealthCheckError(detail)),
        }
    }

    /// The platform could not create the watcher asked for `fs_id`: the
    /// filesystem counts as watched exactly when it did before the request
    /// (`was_watched`, as the request says), so that a filesystem left
    /// unwatched is asked for again when it is next marked unmodified.
    /// Nothing else changes.
    pub fn watcher_failed(&mut self, fs_id: &FileSystemID, was_watched: bool)
        requires
            old(self).wf(),
        ensures
            final(self).wf(),
            final(self)@ == watcher_failed_model(old(self)@, fs_id@, was_watched),
    {
        proof { self.lemma_consistent(); }
        if let Some(i) = self.filesystem_states.find(fs_id) {
            let old_st = self.filesystem_states.state(i);
            let st = FileSystemState {
                path: clone_path(&old_st.path),
                status: old_st.status,
                has_active_watcher: was_watched && old_st.is_daemon_monitoring,
                is_daemon_monitoring: old_st.is_daemon_monitoring,
            };
            self.filesystem_states.set_state(i, st);
        }
    }
}

} // verus!
