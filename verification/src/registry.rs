use vstd::prelude::*;

use crate::state::{state_consistent, FileSystemState, FileSystemStateView};

verus! {

/// The abstract registry: filesystem identifier to what is known of it.
pub type StateMap = Map<Seq<char>, FileSystemStateView>;

/// Every filesystem in the registry is in a consistent state.
pub open spec fn registry_consistent(m: StateMap) -> bool {
    forall|k: Seq<char>| #[trigger] m.contains_key(k) ==> state_consistent(m[k])
}

/// A registry keyed by filesystem identifier, kept as two parallel vectors
/// in which no identifier occurs twice.
pub struct Registry {
    ids: Vec<String>,
    states: Vec<FileSystemState>,
}

impl View for Registry {
    type V = StateMap;

    closed spec fn view(&self) -> StateMap {
        Map::new(
            |k: Seq<char>| exists|i: int| 0 <= i < self.ids@.len() && #[trigger] self.ids@[i]@ == k,
            |k: Seq<char>|
                self.states@[choose|i: int| 0 <= i < self.ids@.len() && #[trigger] self.ids@[i]@ == k]@,
        )
    }
}

impl Registry {
    /// Same length, no identifier twice, every state consistent.
    pub closed spec fn wf(&self) -> bool {
        &&& self.ids@.len() == self.states@.len()
        &&& forall|i: int, j: int|
            0 <= i < self.ids@.len() && 0 <= j < self.ids@.len() && i != j ==> #[trigger] self.ids@[i]@
                != #[trigger] self.ids@[j]@
        &&& forall|i: int| 0 <= i < self.states@.len() ==> state_consistent(#[trigger] self.states@[i]@)
    }

    /// Number of entries.
    pub closed spec fn spec_len(&self) -> nat {
        self.ids@.len()
    }

    /// The identifier at position `i`.
    pub closed spec fn id_at(&self, i: int) -> Seq<char> {
        self.ids@[i]@
    }

    proof fn lemma_entry(&self, i: int)
        requires
            self.wf(),
            0 <= i < self.ids@.len(),
        ensures
            self@.contains_key(self.ids@[i]@),
            self@[self.ids@[i]@] == self.states@[i]@,
    {
        let k = self.ids@[i]@;
        assert(self.ids@[i]@ == k);
        let j = choose|j: int| 0 <= j < self.ids@.len() && #[trigger] self.ids@[j]@ == k;
        assert(j == i);
    }

    pub proof fn lemma_wf_consistent(&self)
        requires
            self.wf(),
        ensures
            registry_consistent(self@),
            self@.dom().finite(),
            self@.dom().len() == self.spec_len(),
    {
        assert forall|k: Seq<char>| #[trigger] self@.contains_key(k) implies state_consistent(self@[k]) by {
            let i = choose|i: int| 0 <= i < self.ids@.len() && #[trigger] self.ids@[i]@ == k;
            self.lemma_entry(i);
        }
        self.lemma_dom_len();
    }

    /// Every position holds a key of the view, every key of the view is at
    /// some position, and no two positions hold the same key.
    pub proof fn lemma_positions(&self)
        requires
            self.wf(),
        ensures
            forall|j: int| 0 <= j < self.spec_len() ==> self@.contains_key(#[trigger] self.id_at(j)),
            forall|k: Seq<char>|
                #[trigger] self@.contains_key(k) ==> exists|j: int|
                    0 <= j < self.spec_len() && #[trigger] self.id_at(j) == k,
            forall|a: int, b: int|
                0 <= a < self.spec_len() && 0 <= b < self.spec_len() && a != b ==> #[trigger] self.id_at(a)
                    != #[trigger] self.id_at(b),
    {
        assert forall|j: int| 0 <= j < self.spec_len() implies self@.contains_key(#[trigger] self.id_at(j)) by {
            self.lemma_entry(j);
        }
        assert forall|k: Seq<char>| #[trigger] self@.contains_key(k) implies exists|j: int|
            0 <= j < self.spec_len() && #[trigger] self.id_at(j) == k by {
            let i = choose|i: int| 0 <= i < self.ids@.len() && #[trigger] self.ids@[i]@ == k;
            assert(self.id_at(i) == k);
        }
    }

    proof fn lemma_dom_len(&self)
        requires
            self.wf(),
        ensures
            self@.dom().finite(),
            self@.dom().len() == self.ids@.len(),
    {
        let s = self.ids@.map_values(|x: String| x@);
        assert(s.no_duplicates());
        assert(self@.dom() =~= s.to_set()) by {
            assert forall|k: Seq<char>| self@.dom().contains(k) implies s.to_set().contains(k) by {
                let i = choose|i: int| 0 <= i < self.ids@.len() && #[trigger] self.ids@[i]@ == k;
                assert(s[i] == k);
            }
            assert forall|k: Seq<char>| s.to_set().contains(k) implies self@.dom().contains(k) by {
                let i = choose|i: int| 0 <= i < s.len() && s[i] == k;
                assert(self.ids@[i]@ == k);
            }
        }
        s.unique_seq_to_set();
    }

    /// An empty registry.
    pub fn new() -> (r: Registry)
        ensures
            r.wf(),
            r@ == Map::<Seq<char>, FileSystemStateView>::empty(),
    {
        let r = Registry { ids: Vec::new(), states: Vec::new() };
        assert(r@ =~= Map::<Seq<char>, FileSystemStateView>::empty());
        r
    }

    /// Number of entries.
    pub fn len(&self) -> (n: usize)
        requires
            self.wf(),
        ensures
            n == self.spec_len(),
    {
        self.ids.len()
    }

    /// Position of `id`, if the registry holds it.
    pub fn find(&self, id: &String) -> (r: Option<usize>)
        requires
            self.wf(),
        ensures
            match r {
                Some(i) => i < self.spec_len() && self.id_at(i as int) == id@,
                None => !self@.contains_key(id@),
            },
    {
        let n = self.ids.len();
        let mut i: usize = 0;
        while i < n
            invariant
                n == self.ids@.len(),
                i <= n,
                forall|j: int| 0 <= j < i ==> #[trigger] self.ids@[j]@ != id@,
            decreases n - i,
        {
            if self.ids[i] == *id {
                return Some(i);
            }
            i = i + 1;
        }
        None
    }

    /// The identifier at position `i`.
    pub fn id(&self, i: usize) -> (r: &String)
        requires
            self.wf(),
            i < self.spec_len(),
        ensures
            r@ == self.id_at(i as int),
            self@.contains_key(r@),
    {
        proof { self.lemma_entry(i as int); }
        &self.ids[i]
    }

    /// The state at position `i`.
    pub fn state(&self, i: usize) -> (r: &FileSystemState)
        requires
            self.wf(),
            i < self.spec_len(),
        ensures
            self@.contains_key(self.id_at(i as int)),
            r@ == self@[self.id_at(i as int)],
    {
        proof { self.lemma_entry(i as int); }
        &self.states[i]
    }

    /// Replaces the state at position `i`.
    pub fn set_state(&mut self, i: usize, st: FileSystemState)
        requires
            old(self).wf(),
            i < old(self).spec_len(),
            state_consistent(st@),
        ensures
            final(self).wf(),
            final(self).spec_len() == old(self).spec_len(),
            forall|j: int| 0 <= j < old(self).spec_len() ==> final(self).id_at(j) == old(self).id_at(j),
            final(self)@ == old(self)@.insert(old(self).id_at(i as int), st@),
    {
        let ghost old_self = *self;
        let ghost k = self.ids@[i as int]@;
        let ghost v = st@;
        self.states.set(i, st);
        proof {
            assert forall|j: int| 0 <= j < self.states@.len() implies state_consistent(
                #[trigger] self.states@[j]@,
            ) by {
                if j != i {
                    assert(self.states@[j] == old_self.states@[j]);
                }
            }
            assert(self.wf());
            assert forall|key: Seq<char>| #[trigger] self@.contains_key(key) implies old_self@.insert(
                k,
                v,
            ).contains_key(key) && self@[key] == old_self@.insert(k, v)[key] by {
                let j = choose|j: int| 0 <= j < self.ids@.len() && #[trigger] self.ids@[j]@ == key;
                self.lemma_entry(j);
                old_self.lemma_entry(j);
            }
            assert forall|key: Seq<char>| #[trigger] old_self@.insert(k, v).contains_key(
                key,
            ) implies self@.contains_key(key) by {
                if key == k {
                    self.lemma_entry(i as int);
                } else {
                    let j = choose|j: int| 0 <= j < old_self.ids@.len() && #[trigger] old_self.ids@[j]@ == key;
                    self.lemma_entry(j);
                }
            }
            assert(self@ =~= old_self@.insert(k, v));
        }
    }

    /// Adds an entry for an identifier that the registry does not hold.
    pub fn push(&mut self, id: String, st: FileSystemState)
        requires
            old(self).wf(),
            !old(self)@.contains_key(id@),
            state_consistent(st@),
        ensures
            final(self).wf(),
            final(self).spec_len() == old(self).spec_len() + 1,
            forall|j: int| 0 <= j < old(self).spec_len() ==> final(self).id_at(j) == old(self).id_at(j),
            final(self).id_at(old(self).spec_len() as int) == id@,
            final(self)@ == old(self)@.insert(id@, st@),
    {
        let ghost old_self = *self;
        let ghost k = id@;
        let ghost v = st@;
        let ghost n = self.ids@.len();
        self.ids.push(id);
        self.states.push(st);
        proof {
            assert forall|a: int, b: int|
                0 <= a < self.ids@.len() && 0 <= b < self.ids@.len() && a != b implies #[trigger] self.ids@[a]@
                != #[trigger] self.ids@[b]@ by {
                if a < n && b < n {
                    assert(self.ids@[a] == old_self.ids@[a]);
                    assert(self.ids@[b] == old_self.ids@[b]);
                } else if a == n {
                    assert(self.ids@[b] == old_self.ids@[b]);
                    old_self.lemma_entry(b);
                } else {
                    assert(self.ids@[a] == old_self.ids@[a]);
                    old_self.lemma_entry(a);
                }
            }
            assert forall|j: int| 0 <= j < self.states@.len() implies state_consistent(
                #[trigger] self.states@[j]@,
            ) by {
                if j < n {
                    assert(self.states@[j] == old_self.states@[j]);
                }
            }
            assert(self.wf());
            assert forall|key: Seq<char>| #[trigger] self@.contains_key(key) implies old_self@.insert(
                k,
                v,
            ).contains_key(key) && self@[key] == old_self@.insert(k, v)[key] by {
                let j = choose|j: int| 0 <= j < self.ids@.len() && #[trigger] self.ids@[j]@ == key;
                self.lemma_entry(j);
                if j < n {
                    assert(self.ids@[j] == old_self.ids@[j]);
                    assert(self.states@[j] == old_self.states@[j]);
                    old_self.lemma_entry(j);
                }
            }
            assert forall|key: Seq<char>| #[trigger] old_self@.insert(k, v).contains_key(
                key,
            ) implies self@.contains_key(key) by {
                if key == k {
                    self.lemma_entry(n as int);
                } else {
                    let j = choose|j: int| 0 <= j < old_self.ids@.len() && #[trigger] old_self.ids@[j]@ == key;
                    assert(self.ids@[j] == old_self.ids@[j]);
                    self.lemma_entry(j);
                }
            }
            assert(self@ =~= old_self@.insert(k, v));
        }
    }

    /// Sets the state of `id`, adding the identifier if it is new.
    pub fn insert(&mut self, id: String, st: FileSystemState)
        requires
            old(self).wf(),
            state_consistent(st@),
        ensures
            final(self).wf(),
            final(self)@ == old(self)@.insert(id@, st@),
    {
        match self.find(&id) {
            Some(i) => self.set_state(i, st),
            None => self.push(id, st),
        }
    }
}

} // verus!
