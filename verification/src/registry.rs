//! The two registries of the contract: the allow-list of code identities and
//! the record of verified workers.

use vstd::prelude::*;

verus! {

/// The last verified identity of one caller.
#[derive(Debug, PartialEq, Eq)]
pub struct Worker {
    /// A label supplied by the caller and stored as it came.
    pub checksum: String,
    /// The code identity of the caller's application image.
    pub codehash: String,
}

/// A worker as a mathematical value.
pub struct WorkerView {
    pub checksum: Seq<char>,
    pub codehash: Seq<char>,
}

impl View for Worker {
    type V = WorkerView;

    open spec fn view(&self) -> WorkerView {
        WorkerView { checksum: self.checksum@, codehash: self.codehash@ }
    }
}

impl Clone for Worker {
    fn clone(&self) -> (r: Worker)
        ensures
            r@ == self@,
    {
        Worker { checksum: self.checksum.clone(), codehash: self.codehash.clone() }
    }
}

/// The allow-list of approved code identities: a set of strings.
pub struct CodehashRegistry {
    hashes: Vec<String>,
}

impl CodehashRegistry {
    spec fn texts(&self) -> Seq<Seq<char>> {
        self.hashes@.map_values(|s: String| s@)
    }

    /// The invariant of the type: no code identity is held twice.
    pub closed spec fn wf(&self) -> bool {
        self.texts().no_duplicates()
    }

    /// The empty allow-list.
    pub fn new() -> (r: CodehashRegistry)
        ensures
            r.wf(),
            r@ == Set::<Seq<char>>::empty(),
    {
        let r = CodehashRegistry { hashes: Vec::new() };
        assert(r@ =~= Set::<Seq<char>>::empty());
        r
    }

    /// Whether `codehash` is on the allow-list.
    pub fn is_approved(&self, codehash: &String) -> (r: bool)
        ensures
            r == self@.contains(codehash@),
    {
        let mut i: usize = 0;
        while i < self.hashes.len()
            invariant
                i <= self.hashes@.len(),
                forall|j: int| 0 <= j < i ==> self.texts()[j] != codehash@,
            decreases self.hashes@.len() - i,
        {
            if self.hashes[i] == *codehash {
                assert(self.texts()[i as int] == codehash@);
                return true;
            }
            i += 1;
        }
        false
    }

    /// The approved code identities, each once, in the order in which they
    /// were approved.
    pub fn codehashes(&self) -> (r: &[String])
        requires
            self.wf(),
        ensures
            r@.map_values(|s: String| s@).no_duplicates(),
            r@.map_values(|s: String| s@).to_set() == self@,
    {
        let r = self.hashes.as_slice();
        assert(r@.map_values(|s: String| s@) =~= self.texts());
        r
    }

    /// Puts `codehash` on the allow-list. Returns whether it was new; a code
    /// identity that is already there stays, and nothing changes.
    pub fn approve(&mut self, codehash: String) -> (added: bool)
        requires
            old(self).wf(),
        ensures
            final(self).wf(),
            final(self)@ == old(self)@.insert(codehash@),
            added == !old(self)@.contains(codehash@),
    {
        if self.is_approved(&codehash) {
            assert(self@ =~= self@.insert(codehash@));
            false
        } else {
            let ghost before = self.texts();
            self.hashes.push(codehash);
            assert(self.texts() =~= before.push(codehash@));
            assert(self@ =~= old(self)@.insert(codehash@)) by {
                assert forall|c: Seq<char>| self@.contains(c) <==> #[trigger] old(self)@.insert(
                    codehash@,
                ).contains(c) by {
                    if before.contains(c) {
                        let k = choose|k: int| 0 <= k < before.len() && before[k] == c;
                        assert(self.texts()[k] == c);
                    }
                    if c == codehash@ {
                        assert(self.texts()[before.len() as int] == c);
                    }
                }
            }
            true
        }
    }
}

impl View for CodehashRegistry {
    type V = Set<Seq<char>>;

    closed spec fn view(&self) -> Set<Seq<char>> {
        self.texts().to_set()
    }
}

struct WorkerEntry {
    account_id: String,
    worker: Worker,
}

/// The record of verified workers: a map from caller identity to the worker
/// last recorded for it.
pub struct WorkerRegistry {
    entries: Vec<WorkerEntry>,
}

impl WorkerRegistry {
    spec fn keys(&self) -> Seq<Seq<char>> {
        self.entries@.map_values(|e: WorkerEntry| e.account_id@)
    }

    /// The invariant of the type: no identity has two records.
    pub closed spec fn wf(&self) -> bool {
        self.keys().no_duplicates()
    }

    /// The empty registry.
    pub fn new() -> (r: WorkerRegistry)
        ensures
            r.wf(),
            r@ == Map::<Seq<char>, WorkerView>::empty(),
    {
        let r = WorkerRegistry { entries: Vec::new() };
        assert(r@ =~= Map::<Seq<char>, WorkerView>::empty());
        r
    }

    fn position(&self, account_id: &String) -> (r: Option<usize>)
        ensures
            match r {
                Some(i) => i < self.entries@.len() && self.keys()[i as int] == account_id@,
                None => !self.keys().contains(account_id@),
            },
    {
        let mut i: usize = 0;
        while i < self.entries.len()
            invariant
                i <= self.entries@.len(),
                forall|j: int| 0 <= j < i ==> self.keys()[j] != account_id@,
            decreases self.entries@.len() - i,
        {
            if self.entries[i].account_id == *account_id {
                return Some(i);
            }
            i += 1;
        }
        None
    }

    /// The worker recorded for `account_id`, if there is one.
    pub fn get(&self, account_id: &String) -> (r: Option<&Worker>)
        requires
            self.wf(),
        ensures
            match r {
                Some(worker) => self@.contains_key(account_id@) && worker@ == self@[account_id@],
                None => !self@.contains_key(account_id@),
            },
    {
        match self.position(account_id) {
            Some(i) => {
                assert(self.keys().index_of(account_id@) == i);
                Some(&self.entries[i].worker)
            },
            None => None,
        }
    }

    /// The identities that have a record, each once, in the order in which
    /// they were first recorded.
    pub fn accounts(&self) -> (r: Vec<String>)
        requires
            self.wf(),
        ensures
            r@.map_values(|s: String| s@).no_duplicates(),
            r@.map_values(|s: String| s@).to_set() == self@.dom(),
    {
        let mut r: Vec<String> = Vec::new();
        let mut i: usize = 0;
        while i < self.entries.len()
            invariant
                i <= self.entries@.len(),
                r@.len() == i,
                forall|j: int| 0 <= j < i ==> r@[j]@ == self.keys()[j],
            decreases self.entries@.len() - i,
        {
            r.push(self.entries[i].account_id.clone());
            i += 1;
        }
        assert(r@.map_values(|s: String| s@) =~= self.keys());
        assert(self.keys().to_set() =~= self@.dom());
        r
    }

    /// Records `worker` for `account_id`. A record that was there for the
    /// same identity is replaced as a whole; the records of all other
    /// identities stay as they were.
    pub fn overwrite(&mut self, account_id: String, worker: Worker)
        requires
            old(self).wf(),
        ensures
            final(self).wf(),
            final(self)@ == old(self)@.insert(account_id@, worker@),
    {
        let ghost key = account_id@;
        let ghost value = worker@;
        let ghost before = self.keys();
        match self.position(&account_id) {
            Some(i) => {
                self.entries.set(i, WorkerEntry { account_id, worker });
                assert(self.keys() =~= before);
                assert(self.keys().index_of(key) == i);
            },
            None => {
                self.entries.push(WorkerEntry { account_id, worker });
                assert(self.keys() =~= before.push(key));
                assert(self.keys()[before.len() as int] == key);
                let ghost j = self.keys().index_of(key);
                assert(j == before.len()) by {
                    if j < before.len() {
                        assert(before[j] == key);
                    }
                }
            },
        }
        assert(self@ =~= old(self)@.insert(key, value)) by {
            assert forall|k: Seq<char>| self.keys().contains(k) <==> #[trigger] old(self)@.insert(
                key,
                value,
            ).contains_key(k) by {
                if before.contains(k) {
                    let j = before.index_of(k);
                    assert(self.keys()[j] == k);
                }
                if k == key {
                    assert(self.keys()[self.keys().index_of(key)] == k);
                }
            }
            assert forall|k: Seq<char>| #[trigger] self@.contains_key(k) implies self@[k] == old(
                self,
            )@.insert(key, value)[k] by {
                if k != key {
                    let j = before.index_of(k);
                    assert(before.contains(k));
                    assert(self.keys()[j] == k);
                    assert(self.keys().index_of(k) == j);
                }
            }
        }
    }
}

impl View for WorkerRegistry {
    type V = Map<Seq<char>, WorkerView>;

    closed spec fn view(&self) -> Map<Seq<char>, WorkerView> {
        Map::new(
            |k: Seq<char>| self.keys().contains(k),
            |k: Seq<char>| self.entries@[self.keys().index_of(k)].worker@,
        )
    }
}

} // verus!
