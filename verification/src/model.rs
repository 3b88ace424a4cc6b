use vstd::prelude::*;

use crate::filesystem::{FileSystemModificationStatus, FileSystemView, WatchRequest, WatchRequestView};
use crate::registry::StateMap;
use crate::state::FileSystemStateView;

verus! {

/// The plain value of an optional watch request.
pub open spec fn option_request_view(o: Option<WatchRequest>) -> Option<WatchRequestView> {
    match o {
        Some(r) => Some(r@),
        None => None,
    }
}

/// A filesystem handed to the daemon at start: its path is recorded and it
/// is marked as monitored; a new one starts unmodified and unwatched.
pub open spec fn register_model(m: StateMap, fs: FileSystemView) -> StateMap {
    if m.contains_key(fs.id) {
        m.insert(
            fs.id,
            FileSystemStateView { path: Some(fs.path), is_daemon_monitoring: true, ..m[fs.id] },
        )
    } else {
        m.insert(
            fs.id,
            FileSystemStateView {
                path: Some(fs.path),
                status: FileSystemModificationStatus::UnModified,
                has_active_watcher: false,
                is_daemon_monitoring: true,
            },
        )
    }
}

/// Starting to watch a filesystem: an unknown one is added as unmodified and
/// watched; a known one that is already modified is left alone, since there
/// is nothing left to detect; otherwise it is marked as watched.  The second
/// component asks for a watcher of the filesystem, and says whether it was
/// already marked as watched.
pub open spec fn start_monitoring_model(m: StateMap, fs: FileSystemView) -> (StateMap, Option<
    WatchRequestView,
>) {
    if !m.contains_key(fs.id) {
        (
            m.insert(
                fs.id,
                FileSystemStateView {
                    path: Some(fs.path),
                    status: FileSystemModificationStatus::UnModified,
                    has_active_watcher: true,
                    is_daemon_monitoring: true,
                },
            ),
            Some(WatchRequestView { filesystem: fs, was_watched: false }),
        )
    } else if m[fs.id].status == FileSystemModificationStatus::Modified {
        (m, None)
    } else {
        (
            m.insert(fs.id, FileSystemStateView { has_active_watcher: true, ..m[fs.id] }),
            Some(WatchRequestView { filesystem: fs, was_watched: m[fs.id].has_active_watcher }),
        )
    }
}

/// Registering and starting to watch each filesystem in turn; the second
/// component lists, in order, the watchers that must be created.
pub open spec fn run_model(m: StateMap, paths: Seq<FileSystemView>) -> (StateMap, Seq<WatchRequestView>)
    decreases paths.len(),
{
    if paths.len() == 0 {
        (m, Seq::empty())
    } else {
        let (m1, requests) = run_model(m, paths.drop_last());
        let fs = paths.last();
        let (m2, request) = start_monitoring_model(register_model(m1, fs), fs);
        (
            m2,
            match request {
                Some(f) => requests.push(f),
                None => requests,
            },
        )
    }
}

/// Marking `id` unmodified would have to restart a watcher, but the
/// filesystem was never given a path (it is only known from the cache).
pub open spec fn lacks_path_to_rewatch(m: StateMap, id: Seq<char>) -> bool {
    &&& m.contains_key(id)
    &&& !m[id].has_active_watcher
    &&& m[id].path is None
}

/// Setting the status of a known filesystem.  A modified filesystem loses its
/// watcher (the watcher has fired); an unmodified one without a watcher gets
/// one again, at its recorded path.
pub open spec fn mark_model(m: StateMap, id: Seq<char>, new_status: FileSystemModificationStatus) -> (
    StateMap,
    Option<WatchRequestView>,
) {
    if new_status == FileSystemModificationStatus::Modified {
        (
            m.insert(
                id,
                FileSystemStateView {
                    status: FileSystemModificationStatus::Modified,
                    has_active_watcher: false,
                    ..m[id]
                },
            ),
            None,
        )
    } else if m[id].has_active_watcher {
        (
            m.insert(
                id,
                FileSystemStateView { status: FileSystemModificationStatus::UnModified, ..m[id] },
            ),
            None,
        )
    } else {
        (
            m.insert(
                id,
                FileSystemStateView {
                    status: FileSystemModificationStatus::UnModified,
                    has_active_watcher: true,
                    ..m[id]
                },
            ),
            Some(
                WatchRequestView {
                    filesystem: FileSystemView { id, path: m[id].path.unwrap() },
                    was_watched: false,
                },
            ),
        )
    }
}

/// The platform could not create the watcher that was asked for `id`: the
/// filesystem is marked as watched again exactly when it was before the
/// request (`was_watched`); one that was not handed to the daemon never
/// counts as watched.  Nothing else changes.
pub open spec fn watcher_failed_model(m: StateMap, id: Seq<char>, was_watched: bool) -> StateMap {
    if m.contains_key(id) {
        m.insert(
            id,
            FileSystemStateView {
                has_active_watcher: was_watched && m[id].is_daemon_monitoring,
                ..m[id]
            },
        )
    } else {
        m
    }
}

/// What can happen to the daemon's bookkeeping.
pub enum DaemonEvent {
    /// The daemon starts on these filesystems.
    Run(Seq<FileSystemView>),
    /// A watcher reported a change of the filesystem.
    Changed(Seq<char>),
    /// A client marked the filesystem unmodified.
    MarkUnmodified(Seq<char>),
    /// Creating the watcher of the filesystem failed; whether it was marked
    /// as watched before the request.
    WatcherFailed(Seq<char>, bool),
    /// A client asked for a status or the list of modified filesystems.
    Query,
}

/// The bookkeeping after one event; an event about an unknown filesystem
/// changes nothing.
pub open spec fn step_model(m: StateMap, e: DaemonEvent) -> StateMap {
    match e {
        DaemonEvent::Run(paths) => run_model(m, paths).0,
        DaemonEvent::Changed(id) => if m.contains_key(id) {
            mark_model(m, id, FileSystemModificationStatus::Modified).0
        } else {
            m
        },
        DaemonEvent::MarkUnmodified(id) => if m.contains_key(id) {
            mark_model(m, id, FileSystemModificationStatus::UnModified).0
        } else {
            m
        },
        DaemonEvent::WatcherFailed(id, was_watched) => watcher_failed_model(m, id, was_watched),
        DaemonEvent::Query => m,
    }
}

/// The bookkeeping after a sequence of events, in order.
pub open spec fn steps_model(m: StateMap, es: Seq<DaemonEvent>) -> StateMap
    decreases es.len(),
{
    if es.len() == 0 {
        m
    } else {
        step_model(steps_model(m, es.drop_last()), es.last())
    }
}

/// A filesystem that a client's listing reports: handed to the daemon at
/// start and modified.
pub open spec fn is_listed_modified(st: FileSystemStateView) -> bool {
    st.is_daemon_monitoring && st.status == FileSystemModificationStatus::Modified
}

/// `ids` names each listed filesystem of `m` exactly once, and nothing else.
pub open spec fn lists_modified(m: StateMap, ids: Seq<Seq<char>>) -> bool {
    &&& ids.no_duplicates()
    &&& ids.to_set() == Set::new(|k: Seq<char>| m.contains_key(k) && is_listed_modified(m[k]))
}

/// Every filesystem handed to the daemon that is unmodified has a watcher
/// waiting for its next change.
pub open spec fn unmodified_are_watched(m: StateMap) -> bool {
    forall|k: Seq<char>|
        #[trigger] m.contains_key(k) && m[k].is_daemon_monitoring && m[k].status
            == FileSystemModificationStatus::UnModified ==> m[k].has_active_watcher
}

/// What the cache keeps of the registry: the status of each filesystem.
pub open spec fn cache_of(m: StateMap) -> Map<Seq<char>, FileSystemModificationStatus> {
    m.map_values(|st: FileSystemStateView| st.status)
}

/// The state of a filesystem read back from the cache: its status, no path,
/// no watcher, not handed to the daemon.
pub open spec fn restored_state(status: FileSystemModificationStatus) -> FileSystemStateView {
    FileSystemStateView {
        path: None,
        status,
        has_active_watcher: false,
        is_daemon_monitoring: false,
    }
}

/// The registry rebuilt from a cache.
pub open spec fn restore(c: Map<Seq<char>, FileSystemModificationStatus>) -> StateMap {
    c.map_values(|s: FileSystemModificationStatus| restored_state(s))
}

/// The map that a sequence of cache entries describes; a later entry for an
/// identifier replaces an earlier one.
pub open spec fn entries_to_map(s: Seq<(Seq<char>, FileSystemModificationStatus)>) -> Map<
    Seq<char>,
    FileSystemModificationStatus,
>
    decreases s.len(),
{
    if s.len() == 0 {
        Map::empty()
    } else {
        entries_to_map(s.drop_last()).insert(s.last().0, s.last().1)
    }
}

/// The plain value of cache entries.
pub open spec fn entries_view(v: Seq<(String, FileSystemModificationStatus)>) -> Seq<
    (Seq<char>, FileSystemModificationStatus),
> {
    v.map_values(|e: (String, FileSystemModificationStatus)| (e.0@, e.1))
}

/// No identifier occurs twice among the entries.
pub open spec fn entry_keys_distinct(s: Seq<(Seq<char>, FileSystemModificationStatus)>) -> bool {
    forall|a: int, b: int| 0 <= a < s.len() && 0 <= b < s.len() && a != b ==> #[trigger] s[a].0 != #[trigger] s[b].0
}

/// With distinct identifiers, the described map holds exactly the entries.
pub proof fn lemma_entries_to_map_distinct(s: Seq<(Seq<char>, FileSystemModificationStatus)>)
    requires
        entry_keys_distinct(s),
    ensures
        forall|j: int|
            0 <= j < s.len() ==> #[trigger] entries_to_map(s).contains_key(s[j].0) && entries_to_map(s)[s[j].0]
                == s[j].1,
        forall|k: Seq<char>|
            #[trigger] entries_to_map(s).contains_key(k) ==> exists|j: int| 0 <= j < s.len() && s[j].0 == k,
    decreases s.len(),
{
    if s.len() > 0 {
        let t = s.drop_last();
        assert(entry_keys_distinct(t)) by {
            assert forall|a: int, b: int| 0 <= a < t.len() && 0 <= b < t.len() && a != b implies #[trigger] t[a].0
                != #[trigger] t[b].0 by {
                assert(t[a] == s[a] && t[b] == s[b]);
            }
        }
        lemma_entries_to_map_distinct(t);
        assert(entries_to_map(s) == entries_to_map(t).insert(s.last().0, s.last().1));
        assert forall|j: int| 0 <= j < s.len() implies #[trigger] entries_to_map(s).contains_key(s[j].0)
            && entries_to_map(s)[s[j].0] == s[j].1 by {
            if j < s.len() - 1 {
                assert(t[j] == s[j]);
                assert(s[j].0 != s[s.len() - 1].0);
            }
        }
        assert forall|k: Seq<char>| #[trigger] entries_to_map(s).contains_key(k) implies exists|j: int|
            0 <= j < s.len() && s[j].0 == k by {
            if k != s.last().0 {
                let j = choose|j: int| 0 <= j < t.len() && t[j].0 == k;
                assert(s[j] == t[j]);
            } else {
                assert(s[s.len() - 1].0 == k);
            }
        }
    }
}

} // verus!
