use vstd::prelude::*;
use vstd::pervasive::unreached;
use vstd::string::StringExecFns;
use crate::error::Error;
use crate::meta::Catalog;
use crate::meta::DataStorageRecord;
use crate::meta::MetaRecord;
use crate::meta::ds_exists;
use crate::meta::ds_removed;
use crate::meta::filter_view;
use crate::meta::query_spec;
use crate::meta::gid_removed;
use crate::naming::base_name;
use crate::naming::base_name_spec;
use crate::naming::extension;
use crate::naming::extension_spec;
use crate::naming::policy_valid;
use crate::naming::raw_key_spec;
use crate::naming::resolve_raw_key;
use crate::registry::Registry;

verus! {

/// The storage-agnostic backend capability: get, put and delete against one
/// backend instance, plus construction of a client from a registered kind
/// and configuration payload. Concrete backends are supplied by the
/// embedder; the core calls through this interface and assumes nothing of
/// what the calls return, so its own guarantees hold for every
/// implementation.
pub trait DataStorage where Self: core::marker::Sized {
    /// Constructs a backend client of the given kind from its serialized
    /// configuration payload.
    fn build(kind: &str, cfg: &str) -> Result<Self, Error>;

    /// Retrieves the object stored under the key `name` into the
    /// destination path, or into a path derived from the key when none is
    /// given.
    fn get(&self, name: &str, path: Option<&str>) -> Result<(), Error>;

    /// Stores the local file at `path` under the key `name` and hands back
    /// a descriptor of the stored object.
    fn put(&self, name: &str, path: &str) -> Result<String, Error>;

    /// Deletes the object stored under the key `name`.
    fn del(&self, name: &str) -> Result<(), Error>;
}

/// Relies on uuid::Uuid::new_v4 and its hyphenated rendering: a freshly
/// drawn random version-4 identifier, shown as 36 characters. Nothing more
/// is assumed of the drawn value. The call aborts if the operating system's
/// randomness source fails — an environmental failure, like running out of
/// memory, that no input can exclude.
#[verifier::external_body]
fn fresh_gid() -> (r: String)
    ensures
        r@.len() == 36,
{
    uuid::Uuid::new_v4().to_string()
}

/// How a lookup that had to settle on exactly one file record came out:
/// either the single match the operation then acted on, or the full
/// candidate set, handed back untouched for the caller to disambiguate —
/// the core never guesses which match was intended.
#[derive(Debug)]
pub enum Resolution {
    One(MetaRecord),
    Many(Vec<MetaRecord>),
}

/// The resource manager: orchestrates uploads, downloads, deletions and
/// datastore lifecycle over a catalog and a registry of cached backend
/// handles, enforcing the ordering and consistency contracts stated on each
/// operation.
pub struct RM<D> {
    catalog: Catalog,
    reg: Registry<D>,
}

impl<D: DataStorage> RM<D> {
    /// The file records currently in the catalog.
    pub closed spec fn files(&self) -> Seq<MetaRecord> {
        self.catalog.file_view()
    }

    /// The datastore registrations currently in the catalog.
    pub closed spec fn dss(&self) -> Seq<DataStorageRecord> {
        self.catalog.ds_view()
    }

    /// The cached backend handles, keyed by datastore identifier.
    pub closed spec fn handles(&self) -> Map<u64, D> {
        self.reg.cache()
    }

    /// Whether the catalog can still assign a fresh datastore identifier.
    pub closed spec fn can_register(&self) -> bool {
        self.catalog.can_register()
    }

    /// Well-formedness of the manager's catalog and registry.
    pub closed spec fn wf(&self) -> bool {
        &&& self.catalog.wf()
        &&& self.reg.wf()
    }

    /// A manager over the given catalog, with an empty handle cache.
    pub fn new(catalog: Catalog) -> (rm: RM<D>)
        requires
            catalog.wf(),
        ensures
            rm.wf(),
            rm.files() == catalog.file_view(),
            rm.dss() == catalog.ds_view(),
            rm.handles() == Map::<u64, D>::empty(),
            rm.can_register() == catalog.can_register(),
    {
        RM { catalog, reg: Registry::new() }
    }

    /// Registers a datastore and assigns it a fresh identifier. File
    /// records and cached handles are untouched; the registration fails
    /// only when the identifier space is exhausted.
    pub fn ds_put(&mut self, kind: &str, cfg: &str) -> (r: Result<u64, Error>)
        requires
            old(self).wf(),
        ensures
            final(self).wf(),
            final(self).files() == old(self).files(),
            final(self).handles() == old(self).handles(),
            r is Ok <==> old(self).can_register(),
            r matches Ok(id) ==> ({
                let nds = final(self).dss();
                let ods = old(self).dss();
                &&& nds == ods.push(nds.last())
                &&& nds.last().id == id
                &&& nds.last().kind@ == kind@
                &&& nds.last().cfg@ == cfg@
                &&& !ds_exists(ods, id)
            }),
            r matches Err(e) ==> e is OperationFailed && final(self).dss() == old(self).dss(),
    {
        self.catalog.ds_put(kind, cfg)
    }

    /// Removes a datastore registration and evicts any cached handle for
    /// it, so a later registration under a fresh identifier starts clean.
    /// In-flight holders of the evicted handle are allowed to finish. File
    /// records are untouched, even ones that still reference the removed
    /// datastore: that dangling reference is a recognized inconsistency,
    /// reported when such a record is next used.
    pub fn ds_del(&mut self, dsid: u64)
        requires
            old(self).wf(),
        ensures
            final(self).wf(),
            final(self).dss() == ds_removed(old(self).dss(), dsid),
            final(self).files() == old(self).files(),
            final(self).handles() == old(self).handles().remove(dsid),
            final(self).can_register() == old(self).can_register(),
    {
        self.catalog.ds_del(dsid);
        self.reg.evict(dsid);
    }

    /// Lists every datastore registration, in registration order.
    pub fn ds_ls(&self) -> (r: Vec<DataStorageRecord>)
        ensures
            r@ == self.dss(),
    {
        self.catalog.ds_ls()
    }

    /// Whether a backend handle is currently cached for `dsid`.
    pub fn cached(&self, dsid: u64) -> (r: bool)
        requires
            self.wf(),
        ensures
            r == self.handles().dom().contains(dsid),
    {
        self.reg.contains(dsid)
    }

    /// Resolves a datastore identifier to a ready backend handle, building
    /// and caching the handle on first use. Construction pays off at most
    /// once per identifier: a cached handle is returned as is, every other
    /// cached handle is left untouched, and a failed construction caches
    /// nothing, so a later retry can succeed once the registration is
    /// corrected.
    fn acquire(&mut self, dsid: u64) -> (r: Result<&D, Error>)
        requires
            old(self).wf(),
        ensures
            final(self).wf(),
            final(self).files() == old(self).files(),
            final(self).dss() == old(self).dss(),
            final(self).can_register() == old(self).can_register(),
            forall|o: u64|
                old(self).handles().dom().contains(o) ==> final(self).handles().dom().contains(o)
                    && final(self).handles()[o] == old(self).handles()[o],
            r is Ok ==> final(self).handles() == old(self).handles() || (exists|d: D|
                final(self).handles() == old(self).handles().insert(dsid, d)),
            r is Err ==> final(self).handles() == old(self).handles(),
            r matches Ok(h) ==> final(self).handles().dom().contains(dsid) && *h == final(self).handles()[dsid],
            old(self).handles().dom().contains(dsid) ==> r is Ok && final(self).handles() == old(self).handles(),
            r matches Err(e) ==> (e is NotFound && !ds_exists(old(self).dss(), dsid))
                || e is ConfigError,
            r is Ok ==> old(self).handles().dom().contains(dsid) || ds_exists(
                old(self).dss(),
                dsid,
            ),
            !ds_exists(old(self).dss(), dsid) && !old(self).handles().dom().contains(dsid) ==> (
            r matches Err(e) && e is NotFound),
    {
        if !self.reg.contains(dsid) {
            let rec = match self.catalog.ds_get(dsid) {
                Ok(rec) => rec,
                Err(e) => {
                    return Err(e);
                },
            };
            match D::build(rec.kind.as_str(), rec.cfg.as_str()) {
                Ok(d) => {
                    self.reg.insert(dsid, d);
                },
                Err(e) => {
                    return Err(Error::ConfigError(e.into_message()));
                },
            }
        }
        match self.reg.get(dsid) {
            Some(h) => Ok(h),
            None => unreached(),
        }
    }

    /// Uploads the file at `path` to the datastore `dsid`, deriving the
    /// physical storage key from the naming policy. A file record is
    /// appended only after the backend reports a successful store: a failed
    /// upload, whatever its phase, leaves the catalog's records exactly as
    /// they were. The record keeps the original file name whatever the
    /// policy chose as the key.
    pub fn put(&mut self, dsid: u64, path: &str, policy: &str) -> (r: Result<MetaRecord, Error>)
        requires
            old(self).wf(),
            base_name_spec(path@).len() > 0,
        ensures
            final(self).wf(),
            final(self).dss() == old(self).dss(),
            final(self).can_register() == old(self).can_register(),
            forall|o: u64|
                old(self).handles().dom().contains(o) ==> final(self).handles().dom().contains(o)
                    && final(self).handles()[o] == old(self).handles()[o],
            final(self).handles() == old(self).handles() || (exists|d: D|
                final(self).handles() == old(self).handles().insert(dsid, d)),
            r is Err ==> final(self).files() == old(self).files(),
            !policy_valid(policy@) ==> (r matches Err(e) && e is OperationFailed) && final(self).handles() == old(self).handles(),
            policy_valid(policy@) && !ds_exists(old(self).dss(), dsid) && !old(self).handles().dom().contains(dsid) ==> (r matches Err(e) && e is NotFound) && final(self).handles() == old(self).handles(),
            policy_valid(policy@) && old(self).handles().dom().contains(dsid) ==> (r matches Err(
                e,
            ) ==> e is OperationFailed),
            policy_valid(policy@) && ds_exists(old(self).dss(), dsid) ==> (r matches Err(e)
                ==> e is ConfigError || e is OperationFailed),
            (r matches Err(e) && e is ConfigError) ==> final(self).handles() == old(
                self,
            ).handles(),
            r matches Ok(mr) ==> ({
                &&& final(self).files() == old(self).files().push(mr)
                &&& mr.dsid == dsid
                &&& mr.name@ == base_name_spec(path@)
                &&& mr.gid@.len() == 36
                &&& mr.raw@ == raw_key_spec(policy@, mr.name@, extension_spec(mr.name@), mr.gid@)
                &&& policy_valid(policy@)
            }),
    {
        let name = base_name(path);
        let gid = fresh_gid();
        let ext = extension(name.as_str());
        let raw = match resolve_raw_key(policy, name.as_str(), ext.as_str(), gid.as_str()) {
            Ok(raw) => raw,
            Err(e) => {
                return Err(e);
            },
        };
        let h = match self.acquire(dsid) {
            Ok(h) => h,
            Err(e) => {
                return Err(e);
            },
        };
        let desc = match h.put(raw.as_str(), path) {
            Ok(desc) => desc,
            Err(e) => {
                return Err(Error::OperationFailed(e.into_message()));
            },
        };
        let mr = MetaRecord { gid, dsid, name, raw, desc };
        self.catalog.put(mr.duplicate());
        Ok(mr)
    }

    /// Downloads the file selected by the given filters. The filters must
    /// settle on exactly one record: zero matches fail with a not-found
    /// error, and several matches hand the full candidate set back without
    /// touching any backend. The catalog's records are never changed by a
    /// download, successful or not.
    pub fn get(
        &mut self,
        gid: Option<&str>,
        dsid: Option<u64>,
        name: Option<&str>,
        path: Option<&str>,
    ) -> (r: Result<Resolution, Error>)
        requires
            old(self).wf(),
        ensures
            final(self).wf(),
            final(self).files() == old(self).files(),
            final(self).dss() == old(self).dss(),
            final(self).can_register() == old(self).can_register(),
            forall|o: u64|
                old(self).handles().dom().contains(o) ==> final(self).handles().dom().contains(o)
                    && final(self).handles()[o] == old(self).handles()[o],
            ({
                let cands = query_spec(old(self).files(), filter_view(gid), dsid, filter_view(name));
                &&& (cands.len() == 0 ==> (r matches Err(e) && e is NotFound) && final(self).handles() == old(self).handles())
                &&& (cands.len() > 1 ==> (r matches Ok(res) && res matches Resolution::Many(v)
                    && v@ == cands) && final(self).handles() == old(self).handles())
                &&& (cands.len() == 1 ==> (r matches Ok(res) ==> res matches Resolution::One(m)
                    && m == cands[0]))
                &&& (cands.len() == 1 && !ds_exists(old(self).dss(), cands[0].dsid) && !old(
                    self,
                ).handles().dom().contains(cands[0].dsid) ==> (r matches Err(e)
                    && e is NotFound))
            }),
    {
        let mut mrs = self.catalog.ls(gid, dsid, name);
        if mrs.len() == 0 {
            return Err(Error::NotFound(String::from_str("no matching file record")));
        }
        if mrs.len() > 1 {
            return Ok(Resolution::Many(mrs));
        }
        let mr = match mrs.pop() {
            Some(m) => m,
            None => unreached(),
        };
        let h = match self.acquire(mr.dsid) {
            Ok(h) => h,
            Err(e) => {
                return Err(e);
            },
        };
        match h.get(mr.raw.as_str(), path) {
            Ok(_) => Ok(Resolution::One(mr)),
            Err(e) => Err(e),
        }
    }

    /// Deletes the file stored under `gid`. The backend object is deleted
    /// first, and the file record is removed only after the backend
    /// reports success: a failed backend delete leaves the record in
    /// place, since it is the only pointer to an object that may still
    /// exist. Zero matches fail with a not-found error; several records
    /// under one gid hand the full candidate set back without touching any
    /// backend.
    pub fn del(&mut self, gid: &str) -> (r: Result<Resolution, Error>)
        requires
            old(self).wf(),
        ensures
            final(self).wf(),
            final(self).dss() == old(self).dss(),
            final(self).can_register() == old(self).can_register(),
            forall|o: u64|
                old(self).handles().dom().contains(o) ==> final(self).handles().dom().contains(o)
                    && final(self).handles()[o] == old(self).handles()[o],
            r is Err ==> final(self).files() == old(self).files(),
            (r matches Err(e) && e is ConfigError) ==> final(self).handles() == old(
                self,
            ).handles(),
            ({
                let cands = query_spec(old(self).files(), Some(gid@), None, None);
                &&& (cands.len() == 0 ==> (r matches Err(e) && e is NotFound) && final(self).handles() == old(self).handles())
                &&& (cands.len() > 1 ==> (r matches Ok(res) && res matches Resolution::Many(v)
                    && v@ == cands) && final(self).files() == old(self).files() && final(self).handles() == old(self).handles())
                &&& (cands.len() == 1 ==> (r matches Ok(res) ==> res matches Resolution::One(m)
                    && m == cands[0] && final(self).files() == gid_removed(
                    old(self).files(),
                    gid@,
                )))
                &&& (cands.len() == 1 && ds_exists(old(self).dss(), cands[0].dsid) ==> (
                r matches Err(e) ==> e is ConfigError || e is OperationFailed))
                &&& (cands.len() == 1 && !ds_exists(old(self).dss(), cands[0].dsid) && !old(
                    self,
                ).handles().dom().contains(cands[0].dsid) ==> (r matches Err(e)
                    && e is NotFound))
                &&& (r is Err ==> query_spec(final(self).files(), Some(gid@), None, None)
                    == cands)
            }),
    {
        let mut mrs = self.catalog.ls(Some(gid), None, None);
        if mrs.len() == 0 {
            return Err(Error::NotFound(String::from_str("no matching file record")));
        }
        if mrs.len() > 1 {
            return Ok(Resolution::Many(mrs));
        }
        let mr = match mrs.pop() {
            Some(m) => m,
            None => unreached(),
        };
        let h = match self.acquire(mr.dsid) {
            Ok(h) => h,
            Err(e) => {
                return Err(e);
            },
        };
        match h.del(mr.raw.as_str()) {
            Ok(_) => {},
            Err(e) => {
                return Err(Error::OperationFailed(e.into_message()));
            },
        }
        self.catalog.del(gid);
        Ok(Resolution::One(mr))
    }

    /// Answers a filtered query over the file records: no filters yield
    /// every record, and the given filters combine by logical AND on exact
    /// equality.
    pub fn ls(&self, gid: Option<&str>, dsid: Option<u64>, name: Option<&str>) -> (r: Vec<
        MetaRecord,
    >)
        ensures
            r@ == query_spec(self.files(), filter_view(gid), dsid, filter_view(name)),
    {
        self.catalog.ls(gid, dsid, name)
    }
}

} // verus!
