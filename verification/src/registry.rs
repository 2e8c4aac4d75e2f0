use vstd::prelude::*;

verus! {

/// The cache contents of a registry, read off its two parallel columns:
/// later entries would win, though a well-formed registry never repeats an
/// identifier.
spec fn reg_map_rec<H>(ids: Seq<u64>, hs: Seq<H>) -> Map<u64, H>
    decreases ids.len(),
{
    if ids.len() == 0 || hs.len() == 0 {
        Map::empty()
    } else {
        reg_map_rec(ids.drop_last(), hs.drop_last()).insert(ids.last(), hs.last())
    }
}

/// A cached identifier is exactly one that occurs in the identifier column.
proof fn lemma_reg_map_dom<H>(ids: Seq<u64>, hs: Seq<H>, id: u64)
    requires
        ids.len() == hs.len(),
    ensures
        reg_map_rec(ids, hs).dom().contains(id) <==> ids.contains(id),
    decreases ids.len(),
{
    if ids.len() > 0 {
        lemma_reg_map_dom(ids.drop_last(), hs.drop_last(), id);
        if ids.contains(id) && id != ids.last() {
            let i = choose|i: int| 0 <= i < ids.len() && ids[i] == id;
            assert(ids.drop_last()[i] == id);
        }
    }
}

/// With pairwise distinct identifiers, the handle cached under `ids[i]` is
/// `hs[i]`.
proof fn lemma_reg_map_index<H>(ids: Seq<u64>, hs: Seq<H>, i: int)
    requires
        ids.len() == hs.len(),
        forall|p: int, q: int| 0 <= p < q < ids.len() ==> ids[p] != ids[q],
        0 <= i < ids.len(),
    ensures
        reg_map_rec(ids, hs)[ids[i]] == hs[i],
    decreases ids.len(),
{
    if i < ids.len() - 1 {
        lemma_reg_map_index(ids.drop_last(), hs.drop_last(), i);
    }
}

/// Removing row `i` from the columns removes exactly the entry for `ids[i]`
/// from the cache contents.
proof fn lemma_reg_map_remove<H>(ids: Seq<u64>, hs: Seq<H>, i: int)
    requires
        ids.len() == hs.len(),
        forall|p: int, q: int| 0 <= p < q < ids.len() ==> ids[p] != ids[q],
        0 <= i < ids.len(),
    ensures
        reg_map_rec(ids.remove(i), hs.remove(i)) == reg_map_rec(ids, hs).remove(ids[i]),
    decreases ids.len(),
{
    let m = reg_map_rec(ids.drop_last(), hs.drop_last());
    if i == ids.len() - 1 {
        assert(ids.remove(i) =~= ids.drop_last());
        assert(hs.remove(i) =~= hs.drop_last());
        lemma_reg_map_dom(ids.drop_last(), hs.drop_last(), ids[i]);
        assert(!ids.drop_last().contains(ids[i])) by {
            if ids.drop_last().contains(ids[i]) {
                let j = choose|j: int| 0 <= j < ids.drop_last().len() && ids.drop_last()[j]
                    == ids[i];
                assert(ids[j] == ids[i]);
            }
        }
        assert(m.insert(ids.last(), hs.last()).remove(ids[i]) =~= m);
    } else {
        lemma_reg_map_remove(ids.drop_last(), hs.drop_last(), i);
        assert(ids.remove(i).drop_last() =~= ids.drop_last().remove(i));
        assert(hs.remove(i).drop_last() =~= hs.drop_last().remove(i));
        assert(ids.remove(i).last() == ids.last());
        assert(hs.remove(i).last() == hs.last());
        let mr = reg_map_rec(ids.drop_last().remove(i), hs.drop_last().remove(i));
        assert(reg_map_rec(ids.remove(i), hs.remove(i)) == mr.insert(ids.last(), hs.last()));
        assert(m.remove(ids[i]).insert(ids.last(), hs.last()) =~= m.insert(
            ids.last(),
            hs.last(),
        ).remove(ids[i]));
    }
}

/// A registry of constructed backend handles, keyed by datastore identifier.
/// A handle is cached at most once per identifier, so every caller that
/// resolves the same datastore is handed the same shared handle, while
/// handles of distinct datastores stay independent.
pub struct Registry<H> {
    ids: Vec<u64>,
    handles: Vec<H>,
}

impl<H> Registry<H> {
    /// The cached handles, as a map from datastore identifier to handle.
    pub closed spec fn cache(&self) -> Map<u64, H> {
        reg_map_rec(self.ids@, self.handles@)
    }

    /// Well-formedness: the two columns run in step and no identifier is
    /// cached twice.
    pub closed spec fn wf(&self) -> bool {
        &&& self.ids@.len() == self.handles@.len()
        &&& forall|p: int, q: int| 0 <= p < q < self.ids@.len() ==> self.ids@[p] != self.ids@[q]
    }

    /// An empty registry.
    pub fn new() -> (r: Registry<H>)
        ensures
            r.wf(),
            r.cache() == Map::<u64, H>::empty(),
    {
        Registry { ids: Vec::new(), handles: Vec::new() }
    }

    /// Whether a handle is cached for `dsid`.
    pub fn contains(&self, dsid: u64) -> (r: bool)
        requires
            self.wf(),
        ensures
            r == self.cache().dom().contains(dsid),
    {
        let n = self.ids.len();
        let mut i: usize = 0;
        while i < n
            invariant
                self.wf(),
                n == self.ids@.len(),
                0 <= i <= n,
                forall|j: int| 0 <= j < i ==> self.ids@[j] != dsid,
            decreases n - i,
        {
            if self.ids[i] == dsid {
                proof {
                    lemma_reg_map_dom(self.ids@, self.handles@, dsid);
                }
                return true;
            }
            i += 1;
        }
        proof {
            lemma_reg_map_dom(self.ids@, self.handles@, dsid);
            if self.ids@.contains(dsid) {
                let j = choose|j: int| 0 <= j < self.ids@.len() && self.ids@[j] == dsid;
            }
        }
        false
    }

    /// Borrows the handle cached for `dsid`, if one is cached.
    pub fn get(&self, dsid: u64) -> (r: Option<&H>)
        requires
            self.wf(),
        ensures
            r is Some <==> self.cache().dom().contains(dsid),
            r matches Some(h) ==> *h == self.cache()[dsid],
    {
        let n = self.ids.len();
        let mut i: usize = 0;
        while i < n
            invariant
                self.wf(),
                n == self.ids@.len(),
                n == self.handles@.len(),
                0 <= i <= n,
                forall|j: int| 0 <= j < i ==> self.ids@[j] != dsid,
            decreases n - i,
        {
            if self.ids[i] == dsid {
                proof {
                    lemma_reg_map_dom(self.ids@, self.handles@, dsid);
                    lemma_reg_map_index(self.ids@, self.handles@, i as int);
                }
                return Some(&self.handles[i]);
            }
            i += 1;
        }
        proof {
            lemma_reg_map_dom(self.ids@, self.handles@, dsid);
            if self.ids@.contains(dsid) {
                let j = choose|j: int| 0 <= j < self.ids@.len() && self.ids@[j] == dsid;
            }
        }
        None
    }

    /// Caches a freshly constructed handle for a datastore that has none
    /// yet; every other cached handle is left untouched.
    pub fn insert(&mut self, dsid: u64, handle: H)
        requires
            old(self).wf(),
            !old(self).cache().dom().contains(dsid),
        ensures
            final(self).wf(),
            final(self).cache() == old(self).cache().insert(dsid, handle),
    {
        proof {
            lemma_reg_map_dom(self.ids@, self.handles@, dsid);
            if self.ids@.contains(dsid) {
            }
        }
        self.ids.push(dsid);
        self.handles.push(handle);
        proof {
            assert(self.ids@.drop_last() =~= old(self).ids@);
            assert(self.handles@.drop_last() =~= old(self).handles@);
            assert forall|p: int, q: int|
                0 <= p < q < self.ids@.len() implies self.ids@[p] != self.ids@[q] by {
                if q == self.ids@.len() - 1 {
                    assert(self.ids@[p] == old(self).ids@[p]);
                    if old(self).ids@[p] == dsid {
                        assert(old(self).ids@.contains(dsid));
                    }
                }
            }
        }
    }

    /// Drops the handle cached for `dsid`, if any; handles of other
    /// datastores stay cached and unchanged. Holders of the dropped handle
    /// are not interrupted: the registry merely forgets its own reference.
    pub fn evict(&mut self, dsid: u64)
        requires
            old(self).wf(),
        ensures
            final(self).wf(),
            final(self).cache() == old(self).cache().remove(dsid),
    {
        let n = self.ids.len();
        let mut i: usize = 0;
        while i < n
            invariant
                n == self.ids@.len(),
                n == self.handles@.len(),
                0 <= i <= n,
                forall|j: int| 0 <= j < i ==> self.ids@[j] != dsid,
                old(self).wf(),
                self.ids@ == old(self).ids@,
                self.handles@ == old(self).handles@,
            decreases n - i,
        {
            if self.ids[i] == dsid {
                proof {
                    lemma_reg_map_remove(self.ids@, self.handles@, i as int);
                }
                self.ids.remove(i);
                self.handles.remove(i);
                proof {
                    assert forall|p: int, q: int|
                        0 <= p < q < self.ids@.len() implies self.ids@[p] != self.ids@[q] by {
                        let ghost oi = old(self).ids@;
                        assert(self.ids@ == oi.remove(i as int));
                        if p < i && q < i {
                            assert(self.ids@[p] == oi[p] && self.ids@[q] == oi[q]);
                        } else if p < i {
                            assert(self.ids@[p] == oi[p] && self.ids@[q] == oi[q + 1]);
                        } else {
                            assert(self.ids@[p] == oi[p + 1] && self.ids@[q] == oi[q + 1]);
                        }
                    }
                }
                return ;
            }
            i += 1;
        }
        proof {
            lemma_reg_map_dom(self.ids@, self.handles@, dsid);
            if self.ids@.contains(dsid) {
                let j = choose|j: int| 0 <= j < self.ids@.len() && self.ids@[j] == dsid;
            }
            assert(self.cache().remove(dsid) =~= self.cache());
        }
    }
}

} // verus!
