use std::collections::HashSet;

use easy_fm::Catalog;
use easy_fm::DataStorage;
use easy_fm::DataStorageRecord;
use easy_fm::Error;
use easy_fm::MetaRecord;
use easy_fm::Resolution;
use easy_fm::RM;

/// A backend double whose behaviour is selected by the configuration payload
/// it is built from. A payload of `panic_on_call` makes every capability call
/// abort the test, so a test that completes proves no backend call happened.
struct TestStore {
    fail_put: bool,
    fail_get: bool,
    fail_del: bool,
    panic_on_call: bool,
}

impl DataStorage for TestStore {
    fn build(_kind: &str, cfg: &str) -> Result<TestStore, Error> {
        if cfg == "fail_build" {
            return Err(Error::ConfigError(String::from("malformed configuration")));
        }
        Ok(TestStore {
            fail_put: cfg == "fail_put",
            fail_get: cfg == "fail_get",
            fail_del: cfg == "fail_del",
            panic_on_call: cfg == "panic_on_call",
        })
    }

    fn get(&self, _name: &str, _path: Option<&str>) -> Result<(), Error> {
        if self.panic_on_call {
            panic!("backend entered");
        }
        if self.fail_get {
            return Err(Error::OperationFailed(String::from("get failed")));
        }
        Ok(())
    }

    fn put(&self, name: &str, _path: &str) -> Result<String, Error> {
        if self.panic_on_call {
            panic!("backend entered");
        }
        if self.fail_put {
            return Err(Error::OperationFailed(String::from("put failed")));
        }
        Ok(format!("desc:{}", name))
    }

    fn del(&self, _name: &str) -> Result<(), Error> {
        if self.panic_on_call {
            panic!("backend entered");
        }
        if self.fail_del {
            return Err(Error::OperationFailed(String::from("del failed")));
        }
        Ok(())
    }
}

fn fresh_rm() -> RM<TestStore> {
    RM::new(Catalog::new())
}

fn rm_from(ds: Vec<DataStorageRecord>, files: Vec<MetaRecord>) -> RM<TestStore> {
    RM::new(Catalog::load(ds, files).unwrap())
}

fn ds(id: u64, cfg: &str) -> DataStorageRecord {
    DataStorageRecord { id, kind: String::from("object-store"), cfg: String::from(cfg) }
}

fn mr(gid: &str, dsid: u64, name: &str, raw: &str) -> MetaRecord {
    MetaRecord {
        gid: String::from(gid),
        dsid,
        name: String::from(name),
        raw: String::from(raw),
        desc: String::from("d"),
    }
}

#[test]
fn scenario_upload_list_delete() {
    let mut rm = fresh_rm();
    let id = rm.ds_put("object-store", "{}").unwrap();
    assert_eq!(id, 1);
    let rec = rm.put(1, "/tmp/a.png", "gide").unwrap();
    assert_eq!(rec.dsid, 1);
    assert_eq!(rec.name, "a.png");
    assert_eq!(rec.raw, format!("{}.png", rec.gid));
    let listed = rm.ls(None, Some(1), None);
    assert_eq!(listed.len(), 1);
    assert_eq!(listed[0].gid, rec.gid);
    assert_eq!(listed[0].name, "a.png");
    assert_eq!(listed[0].raw, rec.raw);
    match rm.del(&rec.gid).unwrap() {
        Resolution::One(gone) => assert_eq!(gone.gid, rec.gid),
        Resolution::Many(_) => panic!("expected a single match"),
    }
    assert!(rm.ls(None, Some(1), None).is_empty());
}

#[test]
fn record_name_is_original_under_every_policy() {
    let mut rm = fresh_rm();
    let id = rm.ds_put("object-store", "{}").unwrap();
    for policy in ["raw", "gid", "gide"] {
        let rec = rm.put(id, "/tmp/dir/photo.jpeg", policy).unwrap();
        assert_eq!(rec.name, "photo.jpeg");
    }
}

#[test]
fn raw_keys_follow_the_policy() {
    let mut rm = fresh_rm();
    let id = rm.ds_put("object-store", "{}").unwrap();
    let raw = rm.put(id, "/tmp/a.png", "raw").unwrap();
    assert_eq!(raw.raw, "a.png");
    let gid = rm.put(id, "/tmp/a.png", "gid").unwrap();
    assert_eq!(gid.raw, gid.gid);
    let gide = rm.put(id, "/tmp/a.png", "gide").unwrap();
    assert_eq!(gide.raw, format!("{}.png", gide.gid));
    let bad = rm.put(id, "/tmp/a.png", "unknown").unwrap_err();
    assert!(matches!(bad, Error::OperationFailed(_)));
}

#[test]
fn descriptors_come_from_the_backend() {
    let mut rm = fresh_rm();
    let id = rm.ds_put("object-store", "{}").unwrap();
    let rec = rm.put(id, "/tmp/a.png", "raw").unwrap();
    assert_eq!(rec.desc, "desc:a.png");
}

#[test]
fn generated_identifiers_do_not_collide() {
    let mut rm = fresh_rm();
    let id = rm.ds_put("object-store", "{}").unwrap();
    let mut seen: HashSet<String> = HashSet::new();
    for _ in 0..10_000 {
        let rec = rm.put(id, "/tmp/a.png", "gid").unwrap();
        assert_eq!(rec.gid.len(), 36);
        assert!(seen.insert(rec.gid));
    }
    assert_eq!(seen.len(), 10_000);
    assert_eq!(rm.ls(None, None, None).len(), 10_000);
}

#[test]
fn upload_to_unknown_datastore_is_not_found() {
    let mut rm = fresh_rm();
    let e = rm.put(42, "/tmp/a.png", "raw").unwrap_err();
    assert!(matches!(e, Error::NotFound(_)));
    assert!(rm.ls(None, None, None).is_empty());
}

#[test]
fn failed_backend_put_creates_no_record() {
    let mut rm = fresh_rm();
    let id = rm.ds_put("object-store", "fail_put").unwrap();
    let e = rm.put(id, "/tmp/a.png", "raw").unwrap_err();
    assert!(matches!(e, Error::OperationFailed(_)));
    assert!(rm.ls(None, None, None).is_empty());
    assert!(rm.ls(None, Some(id), None).is_empty());
}

#[test]
fn failed_backend_delete_keeps_the_record() {
    let mut rm = rm_from(vec![ds(1, "fail_del")], vec![mr("g1", 1, "a.png", "a.png")]);
    let e = rm.del("g1").unwrap_err();
    assert!(matches!(e, Error::OperationFailed(_)));
    let left = rm.ls(Some("g1"), None, None);
    assert_eq!(left.len(), 1);
    assert_eq!(left[0].gid, "g1");
}

#[test]
fn zero_matches_fail_with_not_found() {
    let mut rm = rm_from(vec![ds(1, "{}")], Vec::new());
    let e = rm.get(Some("missing"), None, None, None).unwrap_err();
    assert!(matches!(e, Error::NotFound(_)));
    let e = rm.del("missing").unwrap_err();
    assert!(matches!(e, Error::NotFound(_)));
}

#[test]
fn ambiguous_matches_return_candidates_without_backend_calls() {
    let records = vec![mr("g1", 1, "a.png", "k1"), mr("g2", 1, "a.png", "k2")];
    let mut rm = rm_from(vec![ds(1, "panic_on_call")], records);
    match rm.get(None, None, Some("a.png"), None).unwrap() {
        Resolution::Many(v) => {
            assert_eq!(v.len(), 2);
            assert_eq!(v[0].gid, "g1");
            assert_eq!(v[1].gid, "g2");
        },
        Resolution::One(_) => panic!("expected the full candidate set"),
    }
    assert_eq!(rm.ls(None, None, None).len(), 2);
}

#[test]
fn ambiguous_delete_returns_candidates_and_removes_nothing() {
    let records = vec![mr("g1", 1, "a.png", "k1"), mr("g1", 1, "b.png", "k2")];
    let mut rm = rm_from(vec![ds(1, "panic_on_call")], records);
    match rm.del("g1").unwrap() {
        Resolution::Many(v) => assert_eq!(v.len(), 2),
        Resolution::One(_) => panic!("expected the full candidate set"),
    }
    assert_eq!(rm.ls(None, None, None).len(), 2);
}

#[test]
fn download_resolves_one_record() {
    let mut rm = rm_from(vec![ds(1, "{}")], vec![mr("g1", 1, "a.png", "a.png")]);
    match rm.get(Some("g1"), None, None, Some("/tmp/out.png")).unwrap() {
        Resolution::One(rec) => assert_eq!(rec.gid, "g1"),
        Resolution::Many(_) => panic!("expected a single match"),
    }
    assert_eq!(rm.ls(None, None, None).len(), 1);
}

#[test]
fn failed_backend_get_changes_nothing() {
    let mut rm = rm_from(vec![ds(1, "fail_get")], vec![mr("g1", 1, "a.png", "a.png")]);
    let e = rm.get(Some("g1"), None, None, None).unwrap_err();
    assert!(matches!(e, Error::OperationFailed(_)));
    assert_eq!(rm.ls(None, None, None).len(), 1);
}

#[test]
fn download_from_removed_datastore_is_not_found() {
    let mut rm = rm_from(vec![ds(1, "{}")], vec![mr("g1", 1, "a.png", "a.png")]);
    rm.ds_del(1);
    let e = rm.get(Some("g1"), None, None, None).unwrap_err();
    assert!(matches!(e, Error::NotFound(_)));
    assert_eq!(rm.ls(None, None, None).len(), 1);
}

#[test]
fn delete_from_removed_datastore_is_not_found() {
    let mut rm = rm_from(vec![ds(1, "{}")], vec![mr("g1", 1, "a.png", "a.png")]);
    rm.ds_del(1);
    let e = rm.del("g1").unwrap_err();
    assert!(matches!(e, Error::NotFound(_)));
    assert_eq!(rm.ls(Some("g1"), None, None).len(), 1);
}

#[test]
fn failed_construction_poisons_nothing() {
    let mut rm = rm_from(vec![ds(1, "fail_build")], vec![mr("g1", 1, "a.png", "a.png")]);
    let e = rm.get(Some("g1"), None, None, None).unwrap_err();
    assert!(matches!(e, Error::ConfigError(_)));
    assert!(!rm.cached(1));
    let e = rm.get(Some("g1"), None, None, None).unwrap_err();
    assert!(matches!(e, Error::ConfigError(_)));
    assert!(!rm.cached(1));
}

#[test]
fn handles_are_cached_once_and_evicted_on_removal() {
    let mut rm = fresh_rm();
    let id = rm.ds_put("object-store", "{}").unwrap();
    assert!(!rm.cached(id));
    rm.put(id, "/tmp/a.png", "raw").unwrap();
    assert!(rm.cached(id));
    rm.put(id, "/tmp/b.png", "raw").unwrap();
    assert!(rm.cached(id));
    rm.ds_del(id);
    assert!(!rm.cached(id));
}

#[test]
fn datastore_listing_round_trips() {
    let mut rm = fresh_rm();
    let a = rm.ds_put("object-store", "cfg-a").unwrap();
    let b = rm.ds_put("object-store", "cfg-b").unwrap();
    let all = rm.ds_ls();
    assert_eq!(all.len(), 2);
    assert_eq!(all[0].id, a);
    assert_eq!(all[0].cfg, "cfg-a");
    assert_eq!(all[1].id, b);
    rm.ds_del(a);
    let all = rm.ds_ls();
    assert_eq!(all.len(), 1);
    assert_eq!(all[0].id, b);
}
