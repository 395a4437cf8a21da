//! The signer cache: one live handle per key identifier, for the life of
//! the process. `resolve` is check-then-create; the caller holds one lock
//! around it, so at most one handle is ever constructed and stored per
//! key, and every later resolution returns that same handle.

use crate::adapter::{clone_key, key_eq, KeyId, SignerAdapter};
use vstd::prelude::*;

verus! {

/// A mapping from key identifiers to live signer handles. Entries are
/// never evicted.
pub struct SignerCache<S> {
    entries: Vec<(KeyId, S)>,
}

impl<S: SignerAdapter> SignerCache<S> {
    /// Keys are pairwise distinct: at most one handle per key.
    pub closed spec fn wf(&self) -> bool {
        forall|i: int, j: int|
            0 <= i < j < self.entries@.len() ==> #[trigger] self.entries@[i].0@ != #[trigger] self.entries@[j].0@
    }

    /// How many keys have been resolved so far.
    pub closed spec fn spec_len(&self) -> nat {
        self.entries@.len()
    }

    /// Whether a handle is stored under the key.
    pub closed spec fn contains_key(&self, k: Seq<u8>) -> bool {
        exists|i: int| 0 <= i < self.entries@.len() && #[trigger] self.entries@[i].0@ == k
    }

    /// The handle stored under the key.
    pub closed spec fn handle_of(&self, k: Seq<u8>) -> S {
        self.entries@[choose|i: int|
            0 <= i < self.entries@.len() && #[trigger] self.entries@[i].0@ == k].1
    }

    /// With distinct keys, the handle at any matching index is the stored
    /// handle.
    proof fn lemma_handle_at(&self, i: int, k: Seq<u8>)
        requires
            self.wf(),
            0 <= i < self.entries@.len(),
            self.entries@[i].0@ == k,
        ensures
            self.contains_key(k),
            self.handle_of(k) == self.entries@[i].1,
    {
        let j = choose|j: int| 0 <= j < self.entries@.len() && #[trigger] self.entries@[j].0@
            == k;
        if i != j {
            assert(self.entries@[i].0@ != self.entries@[j].0@);
        }
    }

    /// An empty cache.
    pub fn new() -> (r: Self)
        ensures
            r.wf(),
            r.spec_len() == 0,
            forall|k: Seq<u8>| !r.contains_key(k),
    {
        SignerCache { entries: Vec::new() }
    }

    /// How many keys have been resolved so far.
    pub fn len(&self) -> (r: usize)
        ensures
            r == self.spec_len(),
    {
        self.entries.len()
    }

    fn find_index(&self, key: &KeyId) -> (r: Option<usize>)
        ensures
            r matches Some(i) ==> i < self.entries@.len() && self.entries@[i as int].0@ == key@,
            r is None ==> !self.contains_key(key@),
    {
        let mut i: usize = 0;
        while i < self.entries.len()
            invariant
                i <= self.entries@.len(),
                forall|j: int| 0 <= j < i ==> #[trigger] self.entries@[j].0@ != key@,
            decreases self.entries@.len() - i,
        {
            let e = &self.entries[i];
            if key_eq(&e.0, key) {
                return Some(i);
            }
            i += 1;
        }
        None
    }

    /// The handle stored under the key, if the key was resolved before.
    /// The cache itself is not changed.
    pub fn lookup(&self, key: &KeyId) -> (r: Option<S>)
        requires
            self.wf(),
        ensures
            r matches Some(s) ==> self.contains_key(key@) && s == self.handle_of(key@),
            r is None ==> !self.contains_key(key@),
    {
        match self.find_index(key) {
            Some(i) => {
                let e = &self.entries[i];
                proof {
                    self.lemma_handle_at(i as int, key@);
                }
                Some(e.1.share())
            },
            None => None,
        }
    }

    /// Check-then-create resolution. If the key already has a handle,
    /// that handle is returned and nothing is constructed or changed; if
    /// not, one connection is attempted, and on success exactly one new
    /// entry is stored and returned. The caller serializes calls per
    /// cache, so at most one handle is ever constructed per key.
    pub fn resolve(&mut self, cfg: &S::Config, key: &KeyId) -> (r: Result<S, String>)
        requires
            old(self).wf(),
        ensures
            final(self).wf(),
            old(self).contains_key(key@) ==> *final(self) == *old(self) && (r matches Ok(s) && s
                == old(self).handle_of(key@)),
            r is Err ==> *final(self) == *old(self) && !old(self).contains_key(key@),
            (!old(self).contains_key(key@) && r is Ok) ==> {
                &&& final(self).spec_len() == old(self).spec_len() + 1
                &&& final(self).contains_key(key@)
                &&& (r matches Ok(s) && s == final(self).handle_of(key@))
                &&& forall|k: Seq<u8>|
                    #[trigger] final(self).contains_key(k) <==> (old(self).contains_key(k) || k
                        == key@)
                &&& forall|k: Seq<u8>|
                    (k != key@ && #[trigger] old(self).contains_key(k))
                        ==> final(self).handle_of(k) == old(self).handle_of(k)
            },
    {
        match self.find_index(key) {
            Some(i) => {
                let e = &self.entries[i];
                proof {
                    self.lemma_handle_at(i as int, key@);
                }
                Ok(e.1.share())
            },
            None => {
                match S::connect(cfg, key) {
                    Ok(s) => {
                        let ghost oldself = *self;
                        let stored = s.share();
                        let k2 = clone_key(key);
                        self.entries.push((k2, stored));
                        proof {
                            let n = oldself.entries@.len() as int;
                            assert(self.entries@ == oldself.entries@.push((k2, stored)));
                            assert(self.entries@[n].0@ == key@);
                            assert forall|i: int, j: int|
                                0 <= i < j < self.entries@.len() implies #[trigger] self.entries@[i].0@
                                != #[trigger] self.entries@[j].0@ by {
                                if j < n {
                                    assert(oldself.entries@[i].0@ != oldself.entries@[j].0@);
                                } else {
                                    assert(self.entries@[i] == oldself.entries@[i]);
                                    if self.entries@[i].0@ == key@ {
                                        assert(oldself.contains_key(key@));
                                    }
                                }
                            }
                            self.lemma_handle_at(n, key@);
                            assert forall|k: Seq<u8>|
                                (k != key@ && #[trigger] oldself.contains_key(k)) implies
                                self.handle_of(k) == oldself.handle_of(k) by {
                                let i = choose|i: int|
                                    0 <= i < oldself.entries@.len()
                                        && #[trigger] oldself.entries@[i].0@ == k;
                                oldself.lemma_handle_at(i, k);
                                assert(self.entries@[i] == oldself.entries@[i]);
                                self.lemma_handle_at(i, k);
                            }
                            assert forall|k: Seq<u8>| #[trigger]
                                self.contains_key(k) <==> (oldself.contains_key(k) || k
                                == key@) by {
                                if self.contains_key(k) {
                                    let i = choose|i: int|
                                        0 <= i < self.entries@.len() && #[trigger] self.entries@[i].0@
                                            == k;
                                    if i < n {
                                        assert(oldself.entries@[i].0@ == k);
                                        assert(oldself.contains_key(k));
                                    }
                                } else {
                                    if oldself.contains_key(k) {
                                        let i = choose|i: int|
                                            0 <= i < oldself.entries@.len()
                                                && #[trigger] oldself.entries@[i].0@ == k;
                                        assert(self.entries@[i].0@ == k);
                                    }
                                    if k == key@ {
                                        assert(self.entries@[n].0@ == k);
                                    }
                                }
                            }
                        }
                        Ok(s)
                    },
                    Err(e) => Err(e),
                }
            },
        }
    }
}

} // verus!
