use vstd::prelude::*;
use vstd::seq_lib::*;
use vstd::string::StringExecFns;
use crate::error::Error;
use crate::strutil::str_eq;

verus! {

/// A registered datastore: a stable identifier assigned by the catalog, a
/// string tag selecting the backend implementation, and an opaque serialized
/// configuration payload interpreted only by that backend.
#[derive(Debug)]
pub struct DataStorageRecord {
    pub id: u64,
    pub kind: String,
    pub cfg: String,
}

/// A file record: the globally unique identifier assigned at upload time, the
/// datastore holding the bytes, the original logical file name, the physical
/// storage key actually used by the backend, and the backend-returned
/// descriptor of the stored object.
#[derive(Debug)]
pub struct MetaRecord {
    pub gid: String,
    pub dsid: u64,
    pub name: String,
    pub raw: String,
    pub desc: String,
}

impl DataStorageRecord {
    /// A field-for-field copy, equal to the original.
    pub fn duplicate(&self) -> (r: Self)
        ensures
            r == *self,
    {
        DataStorageRecord { id: self.id, kind: self.kind.clone(), cfg: self.cfg.clone() }
    }
}

impl MetaRecord {
    /// A field-for-field copy, equal to the original.
    pub fn duplicate(&self) -> (r: Self)
        ensures
            r == *self,
    {
        MetaRecord {
            gid: self.gid.clone(),
            dsid: self.dsid,
            name: self.name.clone(),
            raw: self.raw.clone(),
            desc: self.desc.clone(),
        }
    }
}

/// Whether some datastore in `ds` carries the identifier `id`.
pub open spec fn ds_exists(ds: Seq<DataStorageRecord>, id: u64) -> bool {
    exists|i: int| 0 <= i < ds.len() && ds[i].id == id
}

/// Whether the identifiers in `ds` are pairwise distinct.
pub open spec fn ds_ids_unique(ds: Seq<DataStorageRecord>) -> bool {
    forall|i: int, j: int| 0 <= i < j < ds.len() ==> ds[i].id != ds[j].id
}

/// The view of an optional query filter.
pub open spec fn filter_view(o: Option<&str>) -> Option<Seq<char>> {
    match o {
        Some(s) => Some(s@),
        None => None,
    }
}

/// Whether a file record satisfies a conjunction of optional exact-equality
/// filters; a filter that is absent is unconstrained.
pub open spec fn record_matches(
    r: MetaRecord,
    gid: Option<Seq<char>>,
    dsid: Option<u64>,
    name: Option<Seq<char>>,
) -> bool {
    &&& (gid matches Some(g) ==> r.gid@ == g)
    &&& (dsid matches Some(d) ==> r.dsid == d)
    &&& (name matches Some(n) ==> r.name@ == n)
}

/// The file records of `files` that satisfy every given filter, in catalog
/// order.
pub open spec fn query_spec(
    files: Seq<MetaRecord>,
    gid: Option<Seq<char>>,
    dsid: Option<u64>,
    name: Option<Seq<char>>,
) -> Seq<MetaRecord> {
    files.filter(|r: MetaRecord| record_matches(r, gid, dsid, name))
}

/// The file records of `files` whose gid differs from `g`: what remains after
/// a deletion by gid.
pub open spec fn gid_removed(files: Seq<MetaRecord>, g: Seq<char>) -> Seq<MetaRecord> {
    files.filter(|r: MetaRecord| r.gid@ != g)
}

/// The datastore records of `ds` whose identifier differs from `id`: what
/// remains after a removal.
pub open spec fn ds_removed(ds: Seq<DataStorageRecord>, id: u64) -> Seq<DataStorageRecord> {
    ds.filter(|d: DataStorageRecord| d.id != id)
}

/// Law: a query with no filters returns every file record, in order.
pub proof fn lemma_query_unfiltered(files: Seq<MetaRecord>)
    ensures
        query_spec(files, None, None, None) == files,
    decreases files.len(),
{
    reveal(Seq::filter);
    if files.len() > 0 {
        lemma_query_unfiltered(files.drop_last());
        assert(query_spec(files, None, None, None) =~= files);
    } else {
        assert(query_spec(files, None, None, None) =~= files);
    }
}

/// Law: a failed upload leaves no trace behind its attempted identifier:
/// when no record carries the gid `g` — in particular, after an upload whose
/// backend store failed and therefore appended nothing — a query filtered by
/// `g` finds nothing.
pub proof fn lemma_query_absent_gid_empty(files: Seq<MetaRecord>, g: Seq<char>)
    requires
        forall|i: int| 0 <= i < files.len() ==> files[i].gid@ != g,
    ensures
        query_spec(files, Some(g), None, None) == Seq::<MetaRecord>::empty(),
    decreases files.len(),
{
    reveal(Seq::filter);
    if files.len() > 0 {
        assert(forall|i: int|
            0 <= i < files.drop_last().len() ==> files.drop_last()[i].gid@ != g);
        lemma_query_absent_gid_empty(files.drop_last(), g);
        assert(files.last().gid@ != g);
        assert(query_spec(files, Some(g), None, None) =~= Seq::<MetaRecord>::empty());
    } else {
        assert(query_spec(files, Some(g), None, None) =~= Seq::<MetaRecord>::empty());
    }
}

/// Law: every record is found by the query for its own gid. In particular,
/// after a deletion whose backend call failed — which leaves the record set
/// unchanged — the targeted record is still present and still queryable.
pub proof fn lemma_record_still_queryable(files: Seq<MetaRecord>, i: int)
    requires
        0 <= i < files.len(),
    ensures
        query_spec(files, Some(files[i].gid@), None, None).contains(files[i]),
{
    files.lemma_filter_contains(
        |r: MetaRecord| record_matches(r, Some(files[i].gid@), None, None),
        i,
    );
}

/// Extending a prefix by one element extends its filtered image exactly when
/// the element satisfies the predicate.
proof fn lemma_filter_take_step<A>(s: Seq<A>, p: spec_fn(A) -> bool, i: int)
    requires
        0 <= i < s.len(),
    ensures
        s.take(i + 1).filter(p) == if p(s[i]) {
            s.take(i).filter(p).push(s[i])
        } else {
            s.take(i).filter(p)
        },
{
    reveal(Seq::filter);
    assert(s.take(i + 1).drop_last() =~= s.take(i));
    assert(s.take(i + 1).last() == s[i]);
}

/// Every element of a filtered sequence occurs in the sequence it was
/// filtered from.
proof fn lemma_filter_mem<A>(s: Seq<A>, p: spec_fn(A) -> bool, i: int)
    requires
        0 <= i < s.filter(p).len(),
    ensures
        s.contains(s.filter(p)[i]),
    decreases s.len(),
{
    reveal(Seq::filter);
    if s.len() > 0 {
        let dl = s.drop_last();
        if p(s.last()) && i == s.filter(p).len() - 1 {
            assert(s[s.len() - 1] == s.filter(p)[i]);
        } else {
            lemma_filter_mem(dl, p, i);
            let m = choose|m: int| 0 <= m < dl.len() && dl[m] == dl.filter(p)[i];
            assert(s[m] == s.filter(p)[i]);
        }
    }
}

/// Filtering keeps datastore identifiers pairwise distinct and below any
/// bound they respected before.
proof fn lemma_filter_ds_wf(s: Seq<DataStorageRecord>, p: spec_fn(DataStorageRecord) -> bool, bound: u64)
    requires
        ds_ids_unique(s),
        forall|i: int| 0 <= i < s.len() ==> s[i].id < bound,
    ensures
        ds_ids_unique(s.filter(p)),
        forall|i: int| 0 <= i < s.filter(p).len() ==> s.filter(p)[i].id < bound,
    decreases s.len(),
{
    reveal(Seq::filter);
    if s.len() > 0 {
        let dl = s.drop_last();
        assert(ds_ids_unique(dl));
        lemma_filter_ds_wf(dl, p, bound);
        assert forall|i: int| 0 <= i < dl.filter(p).len() implies dl.filter(p)[i].id
            != s.last().id by {
            lemma_filter_mem(dl, p, i);
            let m = choose|m: int| 0 <= m < dl.len() && dl[m] == dl.filter(p)[i];
            assert(s[m] == dl.filter(p)[i]);
        }
    }
}

/// The catalog: the bookkeeping store of datastore registrations and file
/// records. Identifiers for datastores are assigned by the catalog itself and
/// are never reused; file records are created and removed whole, never
/// mutated in place.
#[derive(Debug)]
pub struct Catalog {
    ds: Vec<DataStorageRecord>,
    files: Vec<MetaRecord>,
    next_id: u64,
}

impl Catalog {
    /// The registered datastores, in registration order.
    pub closed spec fn ds_view(&self) -> Seq<DataStorageRecord> {
        self.ds@
    }

    /// The file records, in insertion order.
    pub closed spec fn file_view(&self) -> Seq<MetaRecord> {
        self.files@
    }

    /// The identifier the next registration will receive.
    pub closed spec fn next_id_spec(&self) -> u64 {
        self.next_id
    }

    /// Whether the catalog can still assign a fresh datastore identifier.
    pub open spec fn can_register(&self) -> bool {
        self.next_id_spec() < u64::MAX
    }

    /// Well-formedness: at least one identifier has been reserved, every
    /// registered identifier lies below the next one to be assigned, and no
    /// two registrations share an identifier.
    pub closed spec fn wf(&self) -> bool {
        &&& 1 <= self.next_id
        &&& forall|i: int| 0 <= i < self.ds@.len() ==> self.ds@[i].id < self.next_id
        &&& ds_ids_unique(self.ds@)
    }

    /// A well-formed catalog has pairwise distinct datastore identifiers.
    pub proof fn lemma_wf_unique_ids(&self)
        requires
            self.wf(),
        ensures
            ds_ids_unique(self.ds_view()),
    {
    }

    /// An empty catalog.
    pub fn new() -> (c: Catalog)
        ensures
            c.wf(),
            c.can_register(),
            c.ds_view() == Seq::<DataStorageRecord>::empty(),
            c.file_view() == Seq::<MetaRecord>::empty(),
    {
        let c = Catalog { ds: Vec::new(), files: Vec::new(), next_id: 1 };
        proof {
            assert(c.ds_view() =~= Seq::<DataStorageRecord>::empty());
            assert(c.file_view() =~= Seq::<MetaRecord>::empty());
        }
        c
    }

    /// Rebuilds a catalog from previously stored records, as an embedder does
    /// when it restores durable state. The datastore identifiers must be
    /// pairwise distinct and leave room for fresh assignments; otherwise the
    /// stored state is rejected as malformed.
    pub fn load(ds: Vec<DataStorageRecord>, files: Vec<MetaRecord>) -> (r: Result<Catalog, Error>)
        ensures
            r is Ok <==> (ds_ids_unique(ds@) && (forall|i: int|
                0 <= i < ds@.len() ==> ds@[i].id < u64::MAX)),
            r matches Ok(c) ==> c.wf() && c.ds_view() == ds@ && c.file_view() == files@,
            r matches Err(e) ==> e is ConfigError,
    {
        let mut next: u64 = 1;
        let mut i: usize = 0;
        while i < ds.len()
            invariant
                0 <= i <= ds@.len(),
                1 <= next,
                forall|j: int| 0 <= j < i ==> ds@[j].id < next,
                forall|j: int, k: int| 0 <= j < k < i ==> ds@[j].id != ds@[k].id,
            decreases ds@.len() - i,
        {
            let mut j: usize = 0;
            while j < i
                invariant
                    0 <= j <= i < ds@.len(),
                    forall|k: int| 0 <= k < j ==> ds@[k].id != ds@[i as int].id,
                decreases i - j,
            {
                if ds[j].id == ds[i].id {
                    return Err(
                        Error::ConfigError(String::from_str("duplicate datastore identifier")),
                    );
                }
                j += 1;
            }
            if ds[i].id >= next {
                if ds[i].id == u64::MAX {
                    return Err(
                        Error::ConfigError(String::from_str("datastore identifier out of range")),
                    );
                }
                next = ds[i].id + 1;
            }
            i += 1;
        }
        Ok(Catalog { ds, files, next_id: next })
    }

    /// Registers a datastore of the given kind and configuration, assigning
    /// it a fresh identifier. Fails only when the identifier space is
    /// exhausted, in which case nothing changes.
    pub fn ds_put(&mut self, kind: &str, cfg: &str) -> (r: Result<u64, Error>)
        requires
            old(self).wf(),
        ensures
            final(self).wf(),
            final(self).file_view() == old(self).file_view(),
            r is Ok <==> old(self).can_register(),
            r matches Ok(id) ==> ({
                let nds = final(self).ds_view();
                let ods = old(self).ds_view();
                &&& nds.len() == ods.len() + 1
                &&& nds == ods.push(nds.last())
                &&& nds.last().id == id
                &&& nds.last().kind@ == kind@
                &&& nds.last().cfg@ == cfg@
                &&& !ds_exists(ods, id)
            }),
            r matches Err(e) ==> e is OperationFailed && final(self).ds_view() == old(
                self,
            ).ds_view(),
    {
        if self.next_id == u64::MAX {
            return Err(Error::OperationFailed(String::from_str("datastore identifiers exhausted")));
        }
        let id = self.next_id;
        self.next_id = id + 1;
        let rec = DataStorageRecord {
            id,
            kind: String::from_str(kind),
            cfg: String::from_str(cfg),
        };
        self.ds.push(rec);
        Ok(id)
    }

    /// Removes the datastore registered under `dsid`, leaving every other
    /// registration and every file record in place. Removing an unknown
    /// identifier changes nothing.
    pub fn ds_del(&mut self, dsid: u64)
        requires
            old(self).wf(),
        ensures
            final(self).wf(),
            final(self).ds_view() == ds_removed(old(self).ds_view(), dsid),
            final(self).file_view() == old(self).file_view(),
            final(self).next_id_spec() == old(self).next_id_spec(),
    {
        let ghost p = |d: DataStorageRecord| d.id != dsid;
        let mut kept: Vec<DataStorageRecord> = Vec::new();
        let n = self.ds.len();
        let mut i: usize = 0;
        while i < n
            invariant
                n == self.ds@.len(),
                0 <= i <= n,
                kept@ == self.ds@.take(i as int).filter(p),
                p == (|d: DataStorageRecord| d.id != dsid),
            decreases n - i,
        {
            let d = &self.ds[i];
            proof {
                lemma_filter_take_step(self.ds@, p, i as int);
            }
            if d.id != dsid {
                kept.push(d.duplicate());
            }
            i += 1;
        }
        proof {
            assert(self.ds@.take(n as int) =~= self.ds@);
            lemma_filter_ds_wf(self.ds@, p, self.next_id);
        }
        self.ds = kept;
    }

    /// Hands back the registration stored under `dsid`, or reports that no
    /// datastore carries that identifier.
    pub fn ds_get(&self, dsid: u64) -> (r: Result<DataStorageRecord, Error>)
        requires
            self.wf(),
        ensures
            r is Ok <==> ds_exists(self.ds_view(), dsid),
            r matches Ok(d) ==> d.id == dsid && self.ds_view().contains(d),
            r matches Err(e) ==> e is NotFound,
    {
        let n = self.ds.len();
        let mut i: usize = 0;
        while i < n
            invariant
                n == self.ds@.len(),
                0 <= i <= n,
                forall|j: int| 0 <= j < i ==> self.ds@[j].id != dsid,
            decreases n - i,
        {
            let d = &self.ds[i];
            if d.id == dsid {
                return Ok(d.duplicate());
            }
            i += 1;
        }
        Err(Error::NotFound(String::from_str("datastore not found")))
    }

    /// Lists every datastore registration, in registration order.
    pub fn ds_ls(&self) -> (r: Vec<DataStorageRecord>)
        ensures
            r@ == self.ds_view(),
    {
        let mut out: Vec<DataStorageRecord> = Vec::new();
        let n = self.ds.len();
        let mut i: usize = 0;
        while i < n
            invariant
                n == self.ds@.len(),
                0 <= i <= n,
                out@ == self.ds@.take(i as int),
            decreases n - i,
        {
            let d = &self.ds[i];
            out.push(d.duplicate());
            proof {
                assert(self.ds@.take(i + 1) =~= self.ds@.take(i as int).push(self.ds@[i as int]));
            }
            i += 1;
        }
        proof {
            assert(self.ds@.take(n as int) =~= self.ds@);
        }
        out
    }

    /// Appends a file record to the catalog. The catalog performs no
    /// validation against backend reachability: it is purely bookkeeping.
    pub fn put(&mut self, meta: MetaRecord)
        requires
            old(self).wf(),
        ensures
            final(self).wf(),
            final(self).file_view() == old(self).file_view().push(meta),
            final(self).ds_view() == old(self).ds_view(),
            final(self).next_id_spec() == old(self).next_id_spec(),
    {
        self.files.push(meta);
    }

    /// Removes every file record stored under `gid`, leaving all other
    /// records and every datastore registration in place.
    pub fn del(&mut self, gid: &str)
        requires
            old(self).wf(),
        ensures
            final(self).wf(),
            final(self).file_view() == gid_removed(old(self).file_view(), gid@),
            final(self).ds_view() == old(self).ds_view(),
            final(self).next_id_spec() == old(self).next_id_spec(),
    {
        let ghost p = |r: MetaRecord| r.gid@ != gid@;
        let mut kept: Vec<MetaRecord> = Vec::new();
        let n = self.files.len();
        let mut i: usize = 0;
        while i < n
            invariant
                n == self.files@.len(),
                0 <= i <= n,
                kept@ == self.files@.take(i as int).filter(p),
                p == (|r: MetaRecord| r.gid@ != gid@),
            decreases n - i,
        {
            let r = &self.files[i];
            proof {
                lemma_filter_take_step(self.files@, p, i as int);
            }
            if !str_eq(r.gid.as_str(), gid) {
                kept.push(r.duplicate());
            }
            i += 1;
        }
        proof {
            assert(self.files@.take(n as int) =~= self.files@);
        }
        self.files = kept;
    }

    /// Answers a filtered query over the file records: no filters yield every
    /// record, and the given filters combine by logical AND on exact
    /// equality.
    pub fn ls(&self, gid: Option<&str>, dsid: Option<u64>, name: Option<&str>) -> (r: Vec<
        MetaRecord,
    >)
        ensures
            r@ == query_spec(self.file_view(), filter_view(gid), dsid, filter_view(name)),
    {
        let ghost p = |r: MetaRecord| record_matches(r, filter_view(gid), dsid, filter_view(name));
        let mut out: Vec<MetaRecord> = Vec::new();
        let n = self.files.len();
        let mut i: usize = 0;
        while i < n
            invariant
                n == self.files@.len(),
                0 <= i <= n,
                out@ == self.files@.take(i as int).filter(p),
                p == (|r: MetaRecord| record_matches(
                    r,
                    filter_view(gid),
                    dsid,
                    filter_view(name),
                )),
            decreases n - i,
        {
            let r = &self.files[i];
            proof {
                lemma_filter_take_step(self.files@, p, i as int);
            }
            let keep_gid = match gid {
                Some(g) => str_eq(r.gid.as_str(), g),
                None => true,
            };
            let keep_dsid = match dsid {
                Some(d) => r.dsid == d,
                None => true,
            };
            let keep_name = match name {
                Some(m) => str_eq(r.name.as_str(), m),
                None => true,
            };
            if keep_gid && keep_dsid && keep_name {
                out.push(r.duplicate());
            }
            i += 1;
        }
        proof {
            assert(self.files@.take(n as int) =~= self.files@);
        }
        out
    }
}

/// Validates a catalog kind ahead of the embedder's idempotent,
/// create-if-absent initialization of the durable store; only the `local`
/// kind is understood.
pub fn init(kind: &str) -> (r: Result<(), Error>)
    ensures
        r is Ok <==> kind@ == "local"@,
        r matches Err(e) ==> e is ConfigError,
{
    if str_eq(kind, "local") {
        Ok(())
    } else {
        Err(Error::ConfigError(String::from_str("unknown catalog kind")))
    }
}

/// Builds the catalog selected by a kind tag. The `local` kind starts empty;
/// an embedder that keeps durable state restores it through `Catalog::load`.
pub fn build(kind: &str) -> (r: Result<Catalog, Error>)
    ensures
        r is Ok <==> kind@ == "local"@,
        r matches Ok(c) ==> c.wf() && c.can_register() && c.ds_view()
            == Seq::<DataStorageRecord>::empty() && c.file_view() == Seq::<MetaRecord>::empty(),
        r matches Err(e) ==> e is ConfigError,
{
    if str_eq(kind, "local") {
        Ok(Catalog::new())
    } else {
        Err(Error::ConfigError(String::from_str("unknown catalog kind")))
    }
}

} // verus!
