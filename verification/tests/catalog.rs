use easy_fm::Catalog;
use easy_fm::DataStorageRecord;
use easy_fm::Error;
use easy_fm::MetaRecord;
use easy_fm::{build, init};

fn mr(gid: &str, dsid: u64, name: &str, raw: &str, desc: &str) -> MetaRecord {
    MetaRecord {
        gid: String::from(gid),
        dsid,
        name: String::from(name),
        raw: String::from(raw),
        desc: String::from(desc),
    }
}

#[test]
fn empty_catalog_has_nothing() {
    let c = Catalog::new();
    assert!(c.ds_ls().is_empty());
    assert!(c.ls(None, None, None).is_empty());
}

#[test]
fn first_registration_gets_id_one() {
    let mut c = Catalog::new();
    let a = c.ds_put("object-store", "{}").unwrap();
    let b = c.ds_put("object-store", "{}").unwrap();
    assert_eq!(a, 1);
    assert_eq!(b, 2);
    let all = c.ds_ls();
    assert_eq!(all.len(), 2);
    assert_eq!(all[0].id, 1);
    assert_eq!(all[0].kind, "object-store");
    assert_eq!(all[1].id, 2);
}

#[test]
fn ds_get_finds_and_reports_missing() {
    let mut c = Catalog::new();
    let id = c.ds_put("object-store", "cfg-payload").unwrap();
    let rec = c.ds_get(id).unwrap();
    assert_eq!(rec.id, id);
    assert_eq!(rec.kind, "object-store");
    assert_eq!(rec.cfg, "cfg-payload");
    let e = c.ds_get(99).unwrap_err();
    assert!(matches!(e, Error::NotFound(_)));
}

#[test]
fn ds_del_removes_only_target() {
    let mut c = Catalog::new();
    let a = c.ds_put("object-store", "a").unwrap();
    let b = c.ds_put("object-store", "b").unwrap();
    c.ds_del(a);
    let all = c.ds_ls();
    assert_eq!(all.len(), 1);
    assert_eq!(all[0].id, b);
    assert!(c.ds_get(a).is_err());
    assert!(c.ds_get(b).is_ok());
}

#[test]
fn identifiers_are_not_reused_after_removal() {
    let mut c = Catalog::new();
    let a = c.ds_put("object-store", "a").unwrap();
    c.ds_del(a);
    let b = c.ds_put("object-store", "b").unwrap();
    assert_ne!(a, b);
}

#[test]
fn query_with_no_filters_returns_all() {
    let mut c = Catalog::new();
    c.put(mr("g1", 1, "a.png", "a.png", "d1"));
    c.put(mr("g2", 2, "b.png", "b.png", "d2"));
    let all = c.ls(None, None, None);
    assert_eq!(all.len(), 2);
    assert_eq!(all[0].gid, "g1");
    assert_eq!(all[1].gid, "g2");
}

#[test]
fn query_filters_combine_with_and() {
    let mut c = Catalog::new();
    c.put(mr("g1", 1, "a.png", "a.png", "d1"));
    c.put(mr("g2", 1, "b.png", "b.png", "d2"));
    c.put(mr("g3", 2, "a.png", "x", "d3"));
    let by_ds = c.ls(None, Some(1), None);
    assert_eq!(by_ds.len(), 2);
    let by_name = c.ls(None, None, Some("a.png"));
    assert_eq!(by_name.len(), 2);
    let both = c.ls(None, Some(1), Some("a.png"));
    assert_eq!(both.len(), 1);
    assert_eq!(both[0].gid, "g1");
    let by_gid = c.ls(Some("g3"), None, None);
    assert_eq!(by_gid.len(), 1);
    assert_eq!(by_gid[0].raw, "x");
    let none = c.ls(Some("g3"), Some(1), None);
    assert!(none.is_empty());
}

#[test]
fn del_removes_records_by_gid() {
    let mut c = Catalog::new();
    c.put(mr("g1", 1, "a.png", "a.png", "d1"));
    c.put(mr("g2", 1, "b.png", "b.png", "d2"));
    c.del("g1");
    let all = c.ls(None, None, None);
    assert_eq!(all.len(), 1);
    assert_eq!(all[0].gid, "g2");
    c.del("missing");
    assert_eq!(c.ls(None, None, None).len(), 1);
}

#[test]
fn load_restores_stored_state() {
    let ds = vec![
        DataStorageRecord { id: 3, kind: String::from("object-store"), cfg: String::from("a") },
        DataStorageRecord { id: 7, kind: String::from("object-store"), cfg: String::from("b") },
    ];
    let files = vec![mr("g1", 3, "a.png", "a.png", "d1")];
    let mut c = Catalog::load(ds, files).unwrap();
    assert_eq!(c.ds_ls().len(), 2);
    assert_eq!(c.ls(None, None, None).len(), 1);
    let next = c.ds_put("object-store", "c").unwrap();
    assert_eq!(next, 8);
}

#[test]
fn load_rejects_duplicate_identifiers() {
    let ds = vec![
        DataStorageRecord { id: 3, kind: String::from("object-store"), cfg: String::from("a") },
        DataStorageRecord { id: 3, kind: String::from("object-store"), cfg: String::from("b") },
    ];
    let e = Catalog::load(ds, Vec::new()).unwrap_err();
    assert!(matches!(e, Error::ConfigError(_)));
}

#[test]
fn load_rejects_identifier_at_the_ceiling() {
    let ds = vec![DataStorageRecord {
        id: u64::MAX,
        kind: String::from("object-store"),
        cfg: String::from("a"),
    }];
    let e = Catalog::load(ds, Vec::new()).unwrap_err();
    assert!(matches!(e, Error::ConfigError(_)));
}

#[test]
fn registration_fails_once_identifiers_run_out() {
    let ds = vec![DataStorageRecord {
        id: u64::MAX - 1,
        kind: String::from("object-store"),
        cfg: String::from("a"),
    }];
    let mut c = Catalog::load(ds, Vec::new()).unwrap();
    let e = c.ds_put("object-store", "b").unwrap_err();
    assert!(matches!(e, Error::OperationFailed(_)));
    assert_eq!(c.ds_ls().len(), 1);
}

#[test]
fn init_and_build_accept_only_local() {
    assert!(init("local").is_ok());
    assert!(matches!(init("remote").unwrap_err(), Error::ConfigError(_)));
    let c = build("local").unwrap();
    assert!(c.ds_ls().is_empty());
    assert!(matches!(build("remote").unwrap_err(), Error::ConfigError(_)));
}
