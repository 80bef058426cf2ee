use vstd::prelude::*;

use crate::kv::{
    entries_to_map, keys_unique, lemma_absent_key, lemma_present_key, lemma_push_entry,
    lemma_remove_entry, lemma_remove_keeps_unique,
};
use crate::workflow::FetchOutcome;

verus! {

/// One persisted credential record: the account identifier and the
/// encoded hash of the account's secret.
pub struct CredentialRecord {
    pub identifier: String,
    pub secret_hash: String,
}

/// The map entry a record stands for.
pub open spec fn record_entry(r: CredentialRecord) -> (Seq<char>, Seq<char>) {
    (r.identifier@, r.secret_hash@)
}

/// Account record store accessor, modelled in memory: a collection of
/// credential records viewed as a map from identifier to stored hash.
pub struct RecordStore {
    records: Vec<CredentialRecord>,
}

impl View for RecordStore {
    type V = Map<Seq<char>, Seq<char>>;

    closed spec fn view(&self) -> Map<Seq<char>, Seq<char>> {
        entries_to_map(self.entries())
    }
}

impl RecordStore {
    spec fn entries(&self) -> Seq<(Seq<char>, Seq<char>)> {
        self.records@.map_values(|r: CredentialRecord| record_entry(r))
    }

    /// One identifier names at most one record.
    pub closed spec fn wf(&self) -> bool {
        keys_unique(self.entries())
    }

    /// An empty store.
    pub fn new() -> (r: RecordStore)
        ensures
            r.wf(),
            r@ == Map::<Seq<char>, Seq<char>>::empty(),
    {
        let r = RecordStore { records: Vec::new() };
        proof {
            assert(r.entries() =~= Seq::<(Seq<char>, Seq<char>)>::empty());
        }
        r
    }

    /// Adds the credential record of an identifier that has none yet.
    pub fn insert(&mut self, identifier: String, secret_hash: String)
        requires
            old(self).wf(),
            !old(self)@.contains_key(identifier@),
        ensures
            final(self).wf(),
            final(self)@ == old(self)@.insert(identifier@, secret_hash@),
    {
        let ghost pre = self.entries();
        proof {
            assert forall|i: int| 0 <= i < pre.len() implies pre[i].0 != identifier@ by {
                if pre[i].0 == identifier@ {
                    lemma_present_key(pre, i);
                }
            }
        }
        let ghost entry = (identifier@, secret_hash@);
        self.records.push(CredentialRecord { identifier, secret_hash });
        proof {
            assert(self.entries() =~= pre.push(entry));
            lemma_push_entry(pre, entry.0, entry.1);
        }
    }

    /// Point lookup of the stored credential of an identifier.
    /// `NotFound` is the expected outcome for an unknown account, not a
    /// store failure.
    pub fn fetch_credential(&self, identifier: &str) -> (r: FetchOutcome)
        requires
            self.wf(),
        ensures
            self@.contains_key(identifier@) ==> (r matches FetchOutcome::Found { stored_hash }
                && stored_hash@ == self@[identifier@]),
            !self@.contains_key(identifier@) ==> r == FetchOutcome::NotFound,
    {
        let id: String = identifier.to_owned();
        let n = self.records.len();
        let mut i: usize = 0;
        while i < n
            invariant
                self.wf(),
                n == self.records.len(),
                i <= n,
                id@ == identifier@,
                forall|j: int| 0 <= j < i ==> self.records@[j].identifier@ != identifier@,
            decreases n - i,
        {
            if self.records[i].identifier == id {
                proof {
                    lemma_present_key(self.entries(), i as int);
                }
                return FetchOutcome::Found { stored_hash: self.records[i].secret_hash.clone() };
            }
            i += 1;
        }
        proof {
            assert(forall|j: int| 0 <= j < self.entries().len()
                ==> self.entries()[j].0 != identifier@);
            lemma_absent_key(self.entries(), identifier@);
        }
        FetchOutcome::NotFound
    }

    /// Destroys the record row of an identifier.  The result reports
    /// whether a row was in fact removed, so a caller racing with a
    /// concurrent deletion can tell a silent no-op from a real delete.
    pub fn delete_record(&mut self, identifier: &str) -> (removed: bool)
        requires
            old(self).wf(),
        ensures
            final(self).wf(),
            removed == old(self)@.contains_key(identifier@),
            removed ==> final(self)@ == old(self)@.remove(identifier@),
            !removed ==> *final(self) == *old(self),
    {
        let id: String = identifier.to_owned();
        let n = self.records.len();
        let mut i: usize = 0;
        while i < n
            invariant
                self.wf(),
                *self == *old(self),
                n == self.records.len(),
                i <= n,
                id@ == identifier@,
                forall|j: int| 0 <= j < i ==> self.records@[j].identifier@ != identifier@,
            decreases n - i,
        {
            if self.records[i].identifier == id {
                let ghost pre = self.entries();
                proof {
                    lemma_present_key(pre, i as int);
                    lemma_remove_entry(pre, i as int);
                    lemma_remove_keeps_unique(pre, i as int);
                }
                self.records.remove(i);
                proof {
                    assert(self.entries() =~= pre.remove(i as int));
                }
                return true;
            }
            i += 1;
        }
        proof {
            assert(forall|j: int| 0 <= j < self.entries().len()
                ==> self.entries()[j].0 != identifier@);
            lemma_absent_key(self.entries(), identifier@);
        }
        false
    }
}

} // verus!
