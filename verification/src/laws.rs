//! Properties that hold across the daemon's operations, stated over the
//! models that the operations' contracts use.
use vstd::multiset::Multiset;
use vstd::prelude::*;

use crate::cli::{seq_join, split_filesystem_spec_model};
use crate::filesystem::{FileSystemModificationStatus, FileSystemView, WatchRequestView};
use crate::model::{
    cache_of, is_listed_modified, lacks_path_to_rewatch, steps_model, unmodified_are_watched,
    watcher_failed_model, DaemonEvent, mark_model, register_model, restore, run_model,
    start_monitoring_model,
};
use crate::registry::{registry_consistent, StateMap};
use crate::state::{state_consistent, FileSystemStateView};

verus! {

/// After a status is set, the filesystem has that status: what a client
/// reads back is what was last written.
pub proof fn law_mark_sets_status(m: StateMap, id: Seq<char>, status: FileSystemModificationStatus)
    requires
        m.contains_key(id),
    ensures
        mark_model(m, id, status).0.contains_key(id),
        mark_model(m, id, status).0[id].status == status,
{
}

/// Setting the status of one filesystem changes no other filesystem and
/// neither adds nor removes one.
pub proof fn law_mark_is_local(m: StateMap, id: Seq<char>, status: FileSystemModificationStatus)
    requires
        m.contains_key(id),
    ensures
        mark_model(m, id, status).0.dom() == m.dom(),
        forall|k: Seq<char>| m.contains_key(k) && k != id ==> #[trigger] mark_model(m, id, status).0[k] == m[k],
{
    assert(mark_model(m, id, status).0.dom() =~= m.dom());
}

/// A reported change leaves the filesystem modified and without a watcher,
/// and starts no watcher.
pub proof fn law_change_clears_watcher(m: StateMap, id: Seq<char>)
    requires
        m.contains_key(id),
    ensures
        !mark_model(m, id, FileSystemModificationStatus::Modified).0[id].has_active_watcher,
        mark_model(m, id, FileSystemModificationStatus::Modified).1 is None,
{
}

/// Marking a filesystem unmodified leaves it watched; a watcher is started
/// exactly when it had none, at the path it was given.
pub proof fn law_unmodified_is_watched(m: StateMap, id: Seq<char>)
    requires
        m.contains_key(id),
        !lacks_path_to_rewatch(m, id),
    ensures
        mark_model(m, id, FileSystemModificationStatus::UnModified).0[id].has_active_watcher,
        mark_model(m, id, FileSystemModificationStatus::UnModified).1 is Some <==> !m[id].has_active_watcher,
        mark_model(m, id, FileSystemModificationStatus::UnModified).1 is Some ==> mark_model(
            m,
            id,
            FileSystemModificationStatus::UnModified,
        ).1 == Some(
            WatchRequestView {
                filesystem: FileSystemView { id, path: m[id].path.unwrap() },
                was_watched: false,
            },
        ),
{
}

/// Marking a filesystem unmodified twice in a row changes nothing the second
/// time and starts no second watcher.
pub proof fn law_mark_unmodified_idempotent(m: StateMap, id: Seq<char>)
    requires
        m.contains_key(id),
        !lacks_path_to_rewatch(m, id),
    ensures
        ({
            let m1 = mark_model(m, id, FileSystemModificationStatus::UnModified).0;
            &&& mark_model(m1, id, FileSystemModificationStatus::UnModified).0 == m1
            &&& mark_model(m1, id, FileSystemModificationStatus::UnModified).1 is None
        }),
{
    let m1 = mark_model(m, id, FileSystemModificationStatus::UnModified).0;
    assert(mark_model(m1, id, FileSystemModificationStatus::UnModified).0 =~= m1);
}

/// Setting the same status twice in a row changes nothing the second time
/// and starts no second watcher; this holds of a repeated change report as
/// well as of a repeated mark.
pub proof fn law_mark_idempotent(m: StateMap, id: Seq<char>, status: FileSystemModificationStatus)
    requires
        m.contains_key(id),
        status == FileSystemModificationStatus::UnModified ==> !lacks_path_to_rewatch(m, id),
    ensures
        ({
            let m1 = mark_model(m, id, status).0;
            &&& mark_model(m1, id, status).0 == m1
            &&& mark_model(m1, id, status).1 is None
        }),
{
    let m1 = mark_model(m, id, status).0;
    assert(mark_model(m1, id, status).0 =~= m1);
}

/// When the watcher that marking a filesystem unmodified asked for cannot be
/// created, the filesystem counts as unwatched again, and marking it
/// unmodified once more asks for a watcher again, at its path.
pub proof fn law_mark_after_failed_watcher_asks_again(m: StateMap, id: Seq<char>)
    requires
        m.contains_key(id),
        !lacks_path_to_rewatch(m, id),
        mark_model(m, id, FileSystemModificationStatus::UnModified).1 is Some,
    ensures
        ({
            let (m1, request) = mark_model(m, id, FileSystemModificationStatus::UnModified);
            let m2 = watcher_failed_model(m1, id, request.unwrap().was_watched);
            &&& !m2[id].has_active_watcher
            &&& mark_model(m2, id, FileSystemModificationStatus::UnModified).1 == request
        }),
{
}

/// Starting to watch a known filesystem and then failing to create the
/// watcher it asked for leaves the bookkeeping as it was, whether or not a
/// watcher was already pending.
pub proof fn law_failed_start_changes_nothing(m: StateMap, fs: FileSystemView)
    requires
        registry_consistent(m),
        m.contains_key(fs.id),
    ensures
        start_monitoring_model(m, fs).1 is Some ==> start_monitoring_model(m, fs).1.unwrap().was_watched
            == m[fs.id].has_active_watcher,
        start_monitoring_model(m, fs).1 is Some ==> watcher_failed_model(
            start_monitoring_model(m, fs).0,
            fs.id,
            start_monitoring_model(m, fs).1.unwrap().was_watched,
        ) == m,
{
    if start_monitoring_model(m, fs).1 is Some {
        assert(state_consistent(m[fs.id]));
        assert(watcher_failed_model(
            start_monitoring_model(m, fs).0,
            fs.id,
            start_monitoring_model(m, fs).1.unwrap().was_watched,
        ) =~= m);
    }
}

/// Marking a filesystem unmodified and then failing to create the watcher it
/// asked for leaves the filesystem unmodified and unwatched, and changes
/// nothing else.
pub proof fn law_failed_rewatch_leaves_unwatched(m: StateMap, id: Seq<char>)
    requires
        m.contains_key(id),
        !lacks_path_to_rewatch(m, id),
        mark_model(m, id, FileSystemModificationStatus::UnModified).1 is Some,
    ensures
        !mark_model(m, id, FileSystemModificationStatus::UnModified).1.unwrap().was_watched,
        watcher_failed_model(mark_model(m, id, FileSystemModificationStatus::UnModified).0, id, false) == m.insert(
            id,
            FileSystemStateView { status: FileSystemModificationStatus::UnModified, ..m[id] },
        ),
        !m[id].has_active_watcher,
{
    assert(watcher_failed_model(mark_model(m, id, FileSystemModificationStatus::UnModified).0, id, false)
        =~= m.insert(id, FileSystemStateView { status: FileSystemModificationStatus::UnModified, ..m[id] }));
}

/// `pending` holds one watcher for each filesystem marked as watched, and no
/// other: the flag says exactly whether a watcher is waiting.
pub open spec fn watchers_match(m: StateMap, pending: Multiset<Seq<char>>) -> bool {
    forall|k: Seq<char>|
        #[trigger] pending.count(k) == if m.contains_key(k) && m[k].has_active_watcher {
            1nat
        } else {
            0nat
        }
}

/// The watcher flags follow the pending watchers through every step: a
/// created watcher is added, a failed one is not and its flag is set back, a
/// watcher that fires is removed and its flag cleared.  An empty daemon and
/// one read from a cache have no watcher.
pub proof fn law_watchers_match_pending(
    m: StateMap,
    pending: Multiset<Seq<char>>,
    c: Map<Seq<char>, FileSystemModificationStatus>,
    id: Seq<char>,
    fs: FileSystemView,
)
    ensures
        watchers_match(Map::<Seq<char>, FileSystemStateView>::empty(), Multiset::empty()),
        watchers_match(restore(c), Multiset::empty()),
        // a change reported by a pending watcher
        watchers_match(m, pending) && pending.count(id) > 0 ==> watchers_match(
            mark_model(m, id, FileSystemModificationStatus::Modified).0,
            pending.remove(id),
        ),
        // marking unmodified, then creating the watcher it asks for, or failing to
        watchers_match(m, pending) && m.contains_key(id) && !lacks_path_to_rewatch(m, id) ==> ({
            let (m1, request) = mark_model(m, id, FileSystemModificationStatus::UnModified);
            &&& request is None ==> watchers_match(m1, pending)
            &&& request is Some ==> watchers_match(m1, pending.insert(id))
            &&& request is Some ==> watchers_match(
                watcher_failed_model(m1, id, request.unwrap().was_watched),
                pending,
            )
        }),
        // starting to watch a filesystem that has no watcher yet
        watchers_match(m, pending) && !(m.contains_key(fs.id) && m[fs.id].has_active_watcher) ==> ({
            let (m1, request) = start_monitoring_model(m, fs);
            &&& request is None ==> watchers_match(m1, pending)
            &&& request is Some ==> watchers_match(m1, pending.insert(fs.id))
            &&& request is Some ==> watchers_match(
                watcher_failed_model(m1, fs.id, request.unwrap().was_watched),
                pending,
            )
        }),
{
    broadcast use vstd::multiset::group_multiset_axioms;

    if watchers_match(m, pending) && pending.count(id) > 0 {
        let m1 = mark_model(m, id, FileSystemModificationStatus::Modified).0;
        assert forall|k: Seq<char>| #[trigger] pending.remove(id).count(k) == if m1.contains_key(k)
            && m1[k].has_active_watcher {
            1nat
        } else {
            0nat
        } by {
            assert(pending.count(k) == if m.contains_key(k) && m[k].has_active_watcher {
                1nat
            } else {
                0nat
            });
        }
    }
    if watchers_match(m, pending) && m.contains_key(id) && !lacks_path_to_rewatch(m, id) {
        let (m1, request) = mark_model(m, id, FileSystemModificationStatus::UnModified);
        if request is Some {
            assert forall|k: Seq<char>| #[trigger] pending.insert(id).count(k) == if m1.contains_key(k)
                && m1[k].has_active_watcher {
                1nat
            } else {
                0nat
            } by {
                assert(pending.count(k) == if m.contains_key(k) && m[k].has_active_watcher {
                    1nat
                } else {
                    0nat
                });
            }
            let m2 = watcher_failed_model(m1, id, request.unwrap().was_watched);
            assert forall|k: Seq<char>| #[trigger] pending.count(k) == if m2.contains_key(k)
                && m2[k].has_active_watcher {
                1nat
            } else {
                0nat
            } by {
                assert(pending.count(k) == if m.contains_key(k) && m[k].has_active_watcher {
                    1nat
                } else {
                    0nat
                });
            }
        } else {
            assert forall|k: Seq<char>| #[trigger] pending.count(k) == if m1.contains_key(k)
                && m1[k].has_active_watcher {
                1nat
            } else {
                0nat
            } by {
                assert(pending.count(k) == if m.contains_key(k) && m[k].has_active_watcher {
                    1nat
                } else {
                    0nat
                });
            }
        }
    }
    if watchers_match(m, pending) && !(m.contains_key(fs.id) && m[fs.id].has_active_watcher) {
        let (m1, request) = start_monitoring_model(m, fs);
        if request is Some {
            assert forall|k: Seq<char>| #[trigger] pending.insert(fs.id).count(k) == if m1.contains_key(k)
                && m1[k].has_active_watcher {
                1nat
            } else {
                0nat
            } by {
                assert(pending.count(k) == if m.contains_key(k) && m[k].has_active_watcher {
                    1nat
                } else {
                    0nat
                });
            }
            let m2 = watcher_failed_model(m1, fs.id, request.unwrap().was_watched);
            assert forall|k: Seq<char>| #[trigger] pending.count(k) == if m2.contains_key(k)
                && m2[k].has_active_watcher {
                1nat
            } else {
                0nat
            } by {
                assert(pending.count(k) == if m.contains_key(k) && m[k].has_active_watcher {
                    1nat
                } else {
                    0nat
                });
            }
        }
    }
}

/// How many of `requests` are for the filesystem `k`.
pub open spec fn count_requests(requests: Seq<WatchRequestView>, k: Seq<char>) -> nat
    decreases requests.len(),
{
    if requests.len() == 0 {
        0
    } else {
        count_requests(requests.drop_last(), k) + if requests.last().filesystem.id == k {
            1nat
        } else {
            0nat
        }
    }
}

/// Starting the daemon leaves every filesystem it is not given as it was.
pub proof fn law_run_leaves_others_alone(m: StateMap, paths: Seq<FileSystemView>, k: Seq<char>)
    requires
        forall|i: int| 0 <= i < paths.len() ==> #[trigger] paths[i].id != k,
    ensures
        run_model(m, paths).0.contains_key(k) == m.contains_key(k),
        m.contains_key(k) ==> run_model(m, paths).0[k] == m[k],
        count_requests(run_model(m, paths).1, k) == 0,
    decreases paths.len(),
{
    if paths.len() > 0 {
        let t = paths.drop_last();
        assert forall|i: int| 0 <= i < t.len() implies #[trigger] t[i].id != k by {
            assert(t[i] == paths[i]);
        }
        law_run_leaves_others_alone(m, t, k);
        assert(paths[paths.len() - 1].id != k);
        let (m1, r1) = run_model(m, t);
        let fs = paths.last();
        let (m3, r) = start_monitoring_model(register_model(m1, fs), fs);
        let reqs = run_model(m, paths).1;
        if r is Some {
            assert(reqs.drop_last() =~= r1);
        } else {
            assert(reqs == r1);
        }
    }
}

/// Starting the daemon on filesystems with distinct identifiers, none of
/// them watched yet, asks for exactly one watcher of each filesystem it
/// marks as watched: the flags then match the watchers already pending plus
/// the ones asked for.
pub proof fn law_run_watchers_match(m: StateMap, pending: Multiset<Seq<char>>, paths: Seq<FileSystemView>)
    requires
        watchers_match(m, pending),
        forall|a: int, b: int| 0 <= a < paths.len() && 0 <= b < paths.len() && a != b ==> #[trigger] paths[a].id
            != #[trigger] paths[b].id,
        forall|i: int|
            0 <= i < paths.len() ==> !(m.contains_key(#[trigger] paths[i].id) && m[paths[i].id].has_active_watcher),
    ensures
        forall|k: Seq<char>|
            pending.count(k) + #[trigger] count_requests(run_model(m, paths).1, k) == if run_model(
                m,
                paths,
            ).0.contains_key(k) && run_model(m, paths).0[k].has_active_watcher {
                1nat
            } else {
                0nat
            },
    decreases paths.len(),
{
    if paths.len() == 0 {
        assert forall|k: Seq<char>|
            pending.count(k) + #[trigger] count_requests(run_model(m, paths).1, k) == if run_model(
                m,
                paths,
            ).0.contains_key(k) && run_model(m, paths).0[k].has_active_watcher {
                1nat
            } else {
                0nat
            } by {
            assert(pending.count(k) == if m.contains_key(k) && m[k].has_active_watcher {
                1nat
            } else {
                0nat
            });
        }
    } else {
        let t = paths.drop_last();
        assert forall|a: int, b: int| 0 <= a < t.len() && 0 <= b < t.len() && a != b implies #[trigger] t[a].id
            != #[trigger] t[b].id by {
            assert(t[a] == paths[a] && t[b] == paths[b]);
        }
        assert forall|i: int| 0 <= i < t.len() implies !(m.contains_key(#[trigger] t[i].id)
            && m[t[i].id].has_active_watcher) by {
            assert(t[i] == paths[i]);
        }
        law_run_watchers_match(m, pending, t);
        let (m1, r1) = run_model(m, t);
        let fs = paths.last();
        assert forall|i: int| 0 <= i < t.len() implies #[trigger] t[i].id != fs.id by {
            assert(t[i] == paths[i]);
            assert(paths[i].id != paths[paths.len() - 1].id);
        }
        law_run_leaves_others_alone(m, t, fs.id);
        assert(!(m.contains_key(paths[paths.len() - 1].id) && m[paths[paths.len() - 1].id].has_active_watcher));
        let m2 = register_model(m1, fs);
        let (m3, r) = start_monitoring_model(m2, fs);
        let reqs = run_model(m, paths).1;
        if r is Some {
            assert(reqs.drop_last() =~= r1);
            assert(reqs.last().filesystem == fs);
        } else {
            assert(reqs == r1);
        }
        assert forall|k: Seq<char>|
            pending.count(k) + #[trigger] count_requests(run_model(m, paths).1, k) == if run_model(
                m,
                paths,
            ).0.contains_key(k) && run_model(m, paths).0[k].has_active_watcher {
                1nat
            } else {
                0nat
            } by {
            assert(pending.count(k) + count_requests(r1, k) == if m1.contains_key(k) && m1[k].has_active_watcher {
                1nat
            } else {
                0nat
            });
        }
    }
}

/// A filesystem that is modified stays modified, whatever happens, until a
/// client marks it unmodified.
pub proof fn law_modified_until_marked(m: StateMap, id: Seq<char>, es: Seq<DaemonEvent>)
    requires
        m.contains_key(id),
        m[id].status == FileSystemModificationStatus::Modified,
        forall|i: int| 0 <= i < es.len() ==> es[i] != DaemonEvent::MarkUnmodified(id),
    ensures
        steps_model(m, es).contains_key(id),
        steps_model(m, es)[id].status == FileSystemModificationStatus::Modified,
    decreases es.len(),
{
    if es.len() > 0 {
        let t = es.drop_last();
        assert forall|i: int| 0 <= i < t.len() implies t[i] != DaemonEvent::MarkUnmodified(id) by {
            assert(t[i] == es[i]);
        }
        law_modified_until_marked(m, id, t);
        let m1 = steps_model(m, t);
        assert(es.last() != DaemonEvent::MarkUnmodified(id));
        match es.last() {
            DaemonEvent::Run(paths) => {
                law_run_registers(m1, paths);
            },
            _ => {},
        }
    }
}

/// A monitored filesystem that reports a change is listed as modified; once
/// marked unmodified it is no longer listed.
pub proof fn law_listing_follows_status(m: StateMap, id: Seq<char>)
    requires
        m.contains_key(id),
        m[id].is_daemon_monitoring,
    ensures
        is_listed_modified(mark_model(m, id, FileSystemModificationStatus::Modified).0[id]),
        !is_listed_modified(mark_model(m, id, FileSystemModificationStatus::UnModified).0[id]),
{
}

/// Setting a status keeps every state consistent.
pub proof fn law_mark_keeps_consistency(
    m: StateMap,
    id: Seq<char>,
    status: FileSystemModificationStatus,
)
    requires
        registry_consistent(m),
        m.contains_key(id),
        status == FileSystemModificationStatus::UnModified ==> !lacks_path_to_rewatch(m, id),
    ensures
        registry_consistent(mark_model(m, id, status).0),
{
}

/// Reading the cache back and saving it again gives the same cache.
pub proof fn law_cache_restore_then_save(c: Map<Seq<char>, FileSystemModificationStatus>)
    ensures
        cache_of(restore(c)) == c,
{
    assert(cache_of(restore(c)) =~= c);
}

/// A registry saved to the cache and read back knows the same filesystems,
/// with the same statuses, in a consistent state.
pub proof fn law_cache_save_then_restore(m: StateMap)
    ensures
        restore(cache_of(m)).dom() == m.dom(),
        forall|k: Seq<char>| #[trigger] m.contains_key(k) ==> restore(cache_of(m))[k].status == m[k].status,
        registry_consistent(restore(cache_of(m))),
{
    assert(restore(cache_of(m)).dom() =~= m.dom());
}

/// Starting the daemon records every filesystem it is given as monitored,
/// keeps the status of every filesystem it already knew, and starts every
/// new filesystem unmodified.
pub proof fn law_run_registers(m: StateMap, paths: Seq<FileSystemView>)
    ensures
        forall|i: int|
            0 <= i < paths.len() ==> run_model(m, paths).0.contains_key(#[trigger] paths[i].id)
                && run_model(m, paths).0[paths[i].id].is_daemon_monitoring,
        forall|k: Seq<char>|
            #[trigger] m.contains_key(k) ==> run_model(m, paths).0.contains_key(k) && run_model(
                m,
                paths,
            ).0[k].status == m[k].status,
        forall|k: Seq<char>|
            #[trigger] run_model(m, paths).0.contains_key(k) && !m.contains_key(k) ==> run_model(
                m,
                paths,
            ).0[k].status == FileSystemModificationStatus::UnModified,
    decreases paths.len(),
{
    if paths.len() > 0 {
        let t = paths.drop_last();
        law_run_registers(m, t);
        let m1 = run_model(m, t).0;
        let fs = paths.last();
        let m2 = register_model(m1, fs);
        let m3 = start_monitoring_model(m2, fs).0;
        assert(run_model(m, paths).0 == m3);
        assert forall|i: int| 0 <= i < paths.len() implies run_model(m, paths).0.contains_key(
            #[trigger] paths[i].id,
        ) && run_model(m, paths).0[paths[i].id].is_daemon_monitoring by {
            if i < paths.len() - 1 {
                assert(paths[i] == t[i]);
            }
        }
    }
}

/// Starting the daemon asks for watchers only of filesystems that end up
/// unmodified and watched; a filesystem already modified is not watched
/// again.
pub proof fn law_run_watches_only_unmodified(m: StateMap, paths: Seq<FileSystemView>)
    ensures
        forall|j: int|
            0 <= j < run_model(m, paths).1.len() ==> {
                let f = #[trigger] run_model(m, paths).1[j];
                &&& run_model(m, paths).0.contains_key(f.filesystem.id)
                &&& run_model(m, paths).0[f.filesystem.id].has_active_watcher
                &&& run_model(m, paths).0[f.filesystem.id].status == FileSystemModificationStatus::UnModified
            },
    decreases paths.len(),
{
    if paths.len() > 0 {
        let t = paths.drop_last();
        law_run_watches_only_unmodified(m, t);
        let (m1, r1) = run_model(m, t);
        let fs = paths.last();
        let m2 = register_model(m1, fs);
        let (m3, r) = start_monitoring_model(m2, fs);
        assert(run_model(m, paths).0 == m3);
        assert forall|j: int| 0 <= j < run_model(m, paths).1.len() implies {
            let f = #[trigger] run_model(m, paths).1[j];
            &&& run_model(m, paths).0.contains_key(f.filesystem.id)
            &&& run_model(m, paths).0[f.filesystem.id].has_active_watcher
            &&& run_model(m, paths).0[f.filesystem.id].status == FileSystemModificationStatus::UnModified
        } by {
            if j < r1.len() {
                assert(run_model(m, paths).1[j] == r1[j]);
                let f = r1[j];
                assert(m1.contains_key(f.filesystem.id));
            }
        }
    }
}

/// Every filesystem handed to the daemon at start ends up either watched or
/// already modified.
pub proof fn law_run_leaves_nothing_unwatched(m: StateMap, paths: Seq<FileSystemView>)
    ensures
        forall|i: int|
            0 <= i < paths.len() ==> {
                let st = run_model(m, paths).0[#[trigger] paths[i].id];
                st.has_active_watcher || st.status == FileSystemModificationStatus::Modified
            },
    decreases paths.len(),
{
    if paths.len() > 0 {
        let t = paths.drop_last();
        law_run_leaves_nothing_unwatched(m, t);
        law_run_registers(m, t);
        let m1 = run_model(m, t).0;
        let fs = paths.last();
        let m3 = start_monitoring_model(register_model(m1, fs), fs).0;
        assert(run_model(m, paths).0 == m3);
        assert forall|i: int| 0 <= i < paths.len() implies {
            let st = run_model(m, paths).0[#[trigger] paths[i].id];
            st.has_active_watcher || st.status == FileSystemModificationStatus::Modified
        } by {
            if i < paths.len() - 1 {
                assert(paths[i] == t[i]);
                assert(m1.contains_key(t[i].id));
            }
        }
    }
}

/// Every monitored unmodified filesystem is watched: this holds of a daemon
/// that knows nothing and of one read from a cache, and starting and setting
/// statuses keep it.  Only a failed watcher creation can break it, and the
/// filesystem is then watched again when it is next marked unmodified.
pub proof fn law_unmodified_are_watched(
    m: StateMap,
    c: Map<Seq<char>, FileSystemModificationStatus>,
    paths: Seq<FileSystemView>,
    id: Seq<char>,
    status: FileSystemModificationStatus,
)
    ensures
        unmodified_are_watched(Map::<Seq<char>, FileSystemStateView>::empty()),
        unmodified_are_watched(restore(c)),
        unmodified_are_watched(m) ==> unmodified_are_watched(run_model(m, paths).0),
        unmodified_are_watched(m) && m.contains_key(id) ==> unmodified_are_watched(
            mark_model(m, id, status).0,
        ),
{
    if unmodified_are_watched(m) {
        lemma_run_keeps_watched(m, paths);
    }
}

proof fn lemma_run_keeps_watched(m: StateMap, paths: Seq<FileSystemView>)
    requires
        unmodified_are_watched(m),
    ensures
        unmodified_are_watched(run_model(m, paths).0),
    decreases paths.len(),
{
    if paths.len() > 0 {
        lemma_run_keeps_watched(m, paths.drop_last());
    }
}

/// Starting the daemon keeps every state consistent.
pub proof fn law_run_keeps_consistency(m: StateMap, paths: Seq<FileSystemView>)
    requires
        registry_consistent(m),
    ensures
        registry_consistent(run_model(m, paths).0),
    decreases paths.len(),
{
    if paths.len() > 0 {
        law_run_keeps_consistency(m, paths.drop_last());
    }
}

/// A command-line filesystem `id=path` whose identifier holds no `=` is
/// split back into that identifier and that path.
pub proof fn law_split_filesystem_spec(id: Seq<char>, path: Seq<char>)
    requires
        !id.contains('='),
    ensures
        split_filesystem_spec_model(id + seq!['='] + path) == Some((id, path)),
{
    let s = id + seq!['='] + path;
    s.index_of_first_ensures('=');
    assert(s[id.len() as int] == '=');
    let k = s.index_of_first('=').unwrap();
    if k < id.len() {
        assert(id[k] == s[k]);
    }
    assert(k == id.len());
    assert(s.take(k) =~= id);
    assert(s.skip(k + 1) =~= path);
}

/// The printed list: no identifier gives nothing, one identifier gives that
/// identifier unchanged, and each further identifier adds the separator and
/// then the identifier itself, in full.
pub proof fn law_join_lines_shape(parts: Seq<Seq<char>>, x: Seq<char>, sep: Seq<char>)
    ensures
        seq_join(Seq::<Seq<char>>::empty(), sep) == Seq::<char>::empty(),
        seq_join(seq![x], sep) == x,
        parts.len() > 0 ==> seq_join(parts.push(x), sep) == seq_join(parts, sep) + sep + x,
{
    assert(seq![x].len() == 1);
    assert(seq![x][0] == x);
    if parts.len() > 0 {
        assert(parts.push(x).drop_last() =~= parts);
        assert(parts.push(x).last() == x);
    }
}

/// The joined text is as long as all identifiers together plus one separator
/// between each two of them, and each identifier stands in it, in full, at
/// its place.
pub proof fn law_join_lines_contents(parts: Seq<Seq<char>>, sep: Seq<char>)
    requires
        parts.len() > 0,
    ensures
        seq_join(parts, sep).len() == seq_join(parts.drop_last(), sep).len() + (if parts.len() > 1 {
            sep.len()
        } else {
            0
        }) + parts.last().len(),
        seq_join(parts, sep).skip(seq_join(parts, sep).len() - parts.last().len()) == parts.last(),
    decreases parts.len(),
{
    if parts.len() == 1 {
        assert(parts.drop_last() =~= Seq::<Seq<char>>::empty());
        assert(seq_join(parts, sep).skip(0) =~= parts[0]);
    } else {
        let j = seq_join(parts, sep);
        let k = seq_join(parts.drop_last(), sep) + sep;
        assert(j == k + parts.last());
        assert(j.skip(j.len() - parts.last().len()) =~= parts.last());
    }
}

/// A command-line filesystem without `=` is rejected, and an accepted one is
/// exactly its identifier, `=` and its path, with no `=` in the identifier.
pub proof fn law_split_filesystem_spec_exact(s: Seq<char>)
    ensures
        !s.contains('=') ==> split_filesystem_spec_model(s) is None,
        s.contains('=') ==> split_filesystem_spec_model(s) is Some,
        split_filesystem_spec_model(s) matches Some((id, path)) ==> s == id + seq!['='] + path
            && !id.contains('='),
{
    s.index_of_first_ensures('=');
    if let Some((id, path)) = split_filesystem_spec_model(s) {
        let k = s.index_of_first('=').unwrap();
        assert(s =~= s.take(k) + seq!['='] + s.skip(k + 1));
        assert forall|j: int| 0 <= j < id.len() implies id[j] != '=' by {
            assert(id[j] == s[j]);
        }
    }
}

/// A mark that cannot be served is only one that must restart a
/// watcher for a filesystem without a path: a known filesystem with an
/// active watcher, or with a path, can always be marked, and so can an
/// unknown one (which is answered with an error).
pub proof fn law_rewatch_needs_path_only_when_unwatched(m: StateMap, id: Seq<char>)
    ensures
        lacks_path_to_rewatch(m, id) ==> m.contains_key(id) && !m[id].has_active_watcher
            && m[id].path is None,
        m.contains_key(id) && m[id].has_active_watcher ==> !lacks_path_to_rewatch(m, id),
        m.contains_key(id) && m[id].path is Some ==> !lacks_path_to_rewatch(m, id),
        !m.contains_key(id) ==> !lacks_path_to_rewatch(m, id),
        m.contains_key(id) && !m[id].has_active_watcher && m[id].path is None ==> lacks_path_to_rewatch(
            m,
            id,
        ),
{
}

/// Setting a status changes only the status and the watcher flag of the
/// filesystem: its path and whether it was handed to the daemon stay; a
/// reported change leaves it modified with no watcher.
pub proof fn law_mark_keeps_path(m: StateMap, id: Seq<char>, status: FileSystemModificationStatus)
    requires
        m.contains_key(id),
    ensures
        mark_model(m, id, status).0[id].path == m[id].path,
        mark_model(m, id, status).0[id].is_daemon_monitoring == m[id].is_daemon_monitoring,
        mark_model(m, id, status).0[id].status == status,
        status == FileSystemModificationStatus::Modified ==> !mark_model(
            m,
            id,
            status,
        ).0[id].has_active_watcher,
{
}

/// After a reported change, marking the filesystem unmodified asks for a new
/// watcher at the path the filesystem had before the change.
pub proof fn law_rewatch_after_change_uses_same_path(m: StateMap, id: Seq<char>)
    requires
        m.contains_key(id),
        m[id].path is Some,
    ensures
        ({
            let m1 = mark_model(m, id, FileSystemModificationStatus::Modified).0;
            mark_model(m1, id, FileSystemModificationStatus::UnModified).1 == Some(
                WatchRequestView {
                    filesystem: FileSystemView { id, path: m[id].path.unwrap() },
                    was_watched: false,
                },
            )
        }),
{
}

/// Every watcher that starting the daemon asks for is one of the
/// filesystems it was given, unchanged.
pub proof fn law_run_requests_given_filesystems(m: StateMap, paths: Seq<FileSystemView>)
    ensures
        forall|j: int|
            0 <= j < run_model(m, paths).1.len() ==> exists|i: int|
                0 <= i < paths.len() && #[trigger] run_model(m, paths).1[j].filesystem == paths[i],
    decreases paths.len(),
{
    if paths.len() > 0 {
        let t = paths.drop_last();
        law_run_requests_given_filesystems(m, t);
        let (m1, r1) = run_model(m, t);
        let last = paths.last();
        let (m3, r) = start_monitoring_model(register_model(m1, last), last);
        let reqs = run_model(m, paths).1;
        assert forall|j: int| 0 <= j < reqs.len() implies exists|i: int|
            0 <= i < paths.len() && #[trigger] reqs[j].filesystem == paths[i] by {
            if j < r1.len() {
                assert(reqs[j] == r1[j]);
                let i = choose|i: int| 0 <= i < t.len() && r1[j].filesystem == t[i];
                assert(t[i] == paths[i]);
            } else {
                assert(reqs[j].filesystem == last);
                assert(paths[paths.len() - 1] == last);
            }
        }
    }
}

/// Starting the daemon records, for each filesystem whose identifier is not
/// given again later, the path it was given.
pub proof fn law_run_records_given_paths(m: StateMap, paths: Seq<FileSystemView>)
    ensures
        forall|i: int|
            0 <= i < paths.len() && (forall|j: int| i < j < paths.len() ==> paths[j].id != paths[i].id)
                ==> run_model(m, paths).0.contains_key(#[trigger] paths[i].id) && run_model(
                m,
                paths,
            ).0[paths[i].id].path == Some(paths[i].path),
    decreases paths.len(),
{
    if paths.len() > 0 {
        let t = paths.drop_last();
        law_run_records_given_paths(m, t);
        let m1 = run_model(m, t).0;
        let last = paths.last();
        let m3 = start_monitoring_model(register_model(m1, last), last).0;
        assert(run_model(m, paths).0 == m3);
        assert forall|i: int|
            0 <= i < paths.len() && (forall|j: int| i < j < paths.len() ==> paths[j].id != paths[i].id)
                implies m3.contains_key(#[trigger] paths[i].id) && m3[paths[i].id].path == Some(
            paths[i].path,
        ) by {
            if i < paths.len() - 1 {
                assert(paths[i] == t[i]);
                assert(paths[paths.len() - 1].id != paths[i].id);
                assert forall|j: int| i < j < t.len() implies t[j].id != t[i].id by {
                    assert(t[j] == paths[j]);
                }
            }
        }
    }
}

/// A filesystem given once to the daemon at start, once changed, is watched
/// again at the path it was given when it is marked unmodified.
pub proof fn law_run_change_mark_rewatches_given_path(m: StateMap, paths: Seq<FileSystemView>, i: int)
    requires
        0 <= i < paths.len(),
        forall|j: int| i < j < paths.len() ==> paths[j].id != paths[i].id,
    ensures
        ({
            let id = paths[i].id;
            let m1 = run_model(m, paths).0;
            let m2 = mark_model(m1, id, FileSystemModificationStatus::Modified).0;
            mark_model(m2, id, FileSystemModificationStatus::UnModified).1 == Some(
                WatchRequestView { filesystem: paths[i], was_watched: false },
            )
        }),
{
    law_run_records_given_paths(m, paths);
    assert(run_model(m, paths).0.contains_key(paths[i].id));
    law_rewatch_after_change_uses_same_path(run_model(m, paths).0, paths[i].id);
}

} // verus!
