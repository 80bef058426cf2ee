use vstd::prelude::*;

use crate::kv::{
    entries_to_map, keys_unique, lemma_absent_key, lemma_present_key, lemma_push_entry,
    lemma_remove_entry, lemma_remove_keeps_unique,
};
use crate::workflow::PurgeOutcome;

verus! {

/// One owned-data namespace: the subtree of persisted objects rooted
/// at the account's identifier.  `accessible` models whether the store
/// can currently remove the subtree; an inaccessible namespace stands
/// for a filesystem-level failure such as a permission error.
pub struct Namespace {
    pub identifier: String,
    pub accessible: bool,
}

/// The map entry a namespace stands for.
pub open spec fn namespace_entry(n: Namespace) -> (Seq<char>, bool) {
    (n.identifier@, n.accessible)
}

/// Owned-data purger, modelled in memory: which namespaces exist and
/// whether each can be removed, viewed as a map from identifier to
/// accessibility.
pub struct OwnedDataStore {
    namespaces: Vec<Namespace>,
}

impl View for OwnedDataStore {
    type V = Map<Seq<char>, bool>;

    closed spec fn view(&self) -> Map<Seq<char>, bool> {
        entries_to_map(self.entries())
    }
}

impl OwnedDataStore {
    spec fn entries(&self) -> Seq<(Seq<char>, bool)> {
        self.namespaces@.map_values(|n: Namespace| namespace_entry(n))
    }

    /// One identifier roots at most one namespace.
    pub closed spec fn wf(&self) -> bool {
        keys_unique(self.entries())
    }

    /// An empty object store.
    pub fn new() -> (r: OwnedDataStore)
        ensures
            r.wf(),
            r@ == Map::<Seq<char>, bool>::empty(),
    {
        let r = OwnedDataStore { namespaces: Vec::new() };
        proof {
            assert(r.entries() =~= Seq::<(Seq<char>, bool)>::empty());
        }
        r
    }

    /// Creates the namespace of an identifier that has none yet.
    pub fn create_namespace(&mut self, identifier: String, accessible: bool)
        requires
            old(self).wf(),
            !old(self)@.contains_key(identifier@),
        ensures
            final(self).wf(),
            final(self)@ == old(self)@.insert(identifier@, accessible),
    {
        let ghost pre = self.entries();
        proof {
            assert forall|i: int| 0 <= i < pre.len() implies pre[i].0 != identifier@ by {
                if pre[i].0 == identifier@ {
                    lemma_present_key(pre, i);
                }
            }
        }
        let ghost entry = (identifier@, accessible);
        self.namespaces.push(Namespace { identifier, accessible });
        proof {
            assert(self.entries() =~= pre.push(entry));
            lemma_push_entry(pre, entry.0, entry.1);
        }
    }

    /// Whether the namespace of an identifier exists, and whether it
    /// is accessible where it does.
    pub fn namespace_status(&self, identifier: &str) -> (r: Option<bool>)
        requires
            self.wf(),
        ensures
            self@.contains_key(identifier@) ==> r == Some(self@[identifier@]),
            !self@.contains_key(identifier@) ==> r == None::<bool>,
    {
        let id: String = identifier.to_owned();
        let n = self.namespaces.len();
        let mut i: usize = 0;
        while i < n
            invariant
                self.wf(),
                n == self.namespaces.len(),
                i <= n,
                id@ == identifier@,
                forall|j: int| 0 <= j < i ==> self.namespaces@[j].identifier@ != identifier@,
            decreases n - i,
        {
            if self.namespaces[i].identifier == id {
                proof {
                    lemma_present_key(self.entries(), i as int);
                }
                return Some(self.namespaces[i].accessible);
            }
            i += 1;
        }
        proof {
            assert(forall|j: int| 0 <= j < self.entries().len()
                ==> self.entries()[j].0 != identifier@);
            lemma_absent_key(self.entries(), identifier@);
        }
        None
    }

    /// Recursively removes every object under the namespace of the
    /// identifier.  A namespace that does not exist counts as already
    /// purged; a namespace that cannot be removed is surfaced
    /// distinctly and left as it was.
    pub fn purge(&mut self, identifier: &str) -> (r: PurgeOutcome)
        requires
            old(self).wf(),
        ensures
            final(self).wf(),
            !old(self)@.contains_key(identifier@) ==> r == PurgeOutcome::NamespaceAbsent
                && *final(self) == *old(self),
            old(self)@.contains_key(identifier@) && old(self)@[identifier@]
                ==> r == PurgeOutcome::Purged
                && final(self)@ == old(self)@.remove(identifier@),
            old(self)@.contains_key(identifier@) && !old(self)@[identifier@]
                ==> r == PurgeOutcome::Failed
                && *final(self) == *old(self),
    {
        let id: String = identifier.to_owned();
        let n = self.namespaces.len();
        let mut i: usize = 0;
        while i < n
            invariant
                self.wf(),
                *self == *old(self),
                n == self.namespaces.len(),
                i <= n,
                id@ == identifier@,
                forall|j: int| 0 <= j < i ==> self.namespaces@[j].identifier@ != identifier@,
            decreases n - i,
        {
            if self.namespaces[i].identifier == id {
                proof {
                    lemma_present_key(self.entries(), i as int);
                }
                if self.namespaces[i].accessible {
                    let ghost pre = self.entries();
                    proof {
                        lemma_remove_entry(pre, i as int);
                        lemma_remove_keeps_unique(pre, i as int);
                    }
                    self.namespaces.remove(i);
                    proof {
                        assert(self.entries() =~= pre.remove(i as int));
                    }
                    return PurgeOutcome::Purged;
                } else {
                    return PurgeOutcome::Failed;
                }
            }
            i += 1;
        }
        proof {
            assert(forall|j: int| 0 <= j < self.entries().len()
                ==> self.entries()[j].0 != identifier@);
            lemma_absent_key(self.entries(), identifier@);
        }
        PurgeOutcome::NamespaceAbsent
    }
}

} // verus!
