use turingfeeds::{stored_under_own_names, DbOps, DirFault, FileOps, TFDocument, TaiInstant, TuringFeeds, TuringFeedsDB};

fn at(seconds: u64, nanos: u32) -> TaiInstant {
    TaiInstant::from_parts(seconds, nanos).unwrap()
}

fn named(name: &str, t: TaiInstant) -> TuringFeedsDB {
    TuringFeedsDB::new_at(t).identifier(name)
}

#[test]
fn add_then_get_yields_inserted_database() {
    let mut repo = TuringFeeds::new();
    let db = named("alpha", at(1, 0)).add_at(TFDocument::new_at(String::from("d"), at(1, 0)), at(2, 0));
    let copy = db.clone();
    assert_eq!(repo.memdb_add(db), DbOps::Inserted);
    assert_eq!(repo.memdb_get("alpha"), Some(&copy));
    assert_eq!(repo.database_count(), 1);
}

#[test]
fn second_add_with_same_name_already_exists() {
    let mut repo = TuringFeeds::new();
    assert_eq!(repo.memdb_add(named("alpha", at(1, 0))), DbOps::Inserted);
    assert_eq!(repo.memdb_add(named("alpha", at(2, 0))), DbOps::AlreadyExists);
    assert_eq!(repo.memdb_get("alpha").unwrap().datetime(), at(1, 0));
    assert_eq!(repo.database_count(), 1);
}

#[test]
fn update_absent_is_key_not_found() {
    let mut repo = TuringFeeds::new();
    repo.memdb_add(named("alpha", at(1, 0)));
    assert_eq!(repo.memdb_update(named("beta", at(2, 0))), DbOps::KeyNotFound);
    assert_eq!(repo.database_count(), 1);
    assert!(repo.memdb_get("beta").is_none());
    assert_eq!(repo.memdb_get("alpha").unwrap().datetime(), at(1, 0));
}

#[test]
fn update_present_is_modified() {
    let mut repo = TuringFeeds::new();
    repo.memdb_add(named("alpha", at(1, 0)));
    assert_eq!(repo.memdb_update(named("alpha", at(2, 0))), DbOps::Modified);
    assert_eq!(repo.memdb_get("alpha").unwrap().datetime(), at(2, 0));
    assert_eq!(repo.database_count(), 1);
}

#[test]
fn rm_removes_one_then_key_not_found() {
    let mut repo = TuringFeeds::new();
    repo.memdb_add(named("alpha", at(1, 0)));
    repo.memdb_add(named("beta", at(1, 0)));
    let (op, removed) = repo.memdb_rm("alpha");
    assert_eq!(op, DbOps::Deleted);
    assert_eq!(removed, Some(named("alpha", at(1, 0))));
    assert_eq!(repo.database_count(), 1);
    assert!(repo.memdb_get("beta").is_some());
    let (op, removed) = repo.memdb_rm("alpha");
    assert_eq!(op, DbOps::KeyNotFound);
    assert_eq!(removed, None);
    assert_eq!(repo.database_count(), 1);
}

#[test]
fn snapshot_restored_into_fresh_registry_gives_back_committed_database() {
    let mut repo = TuringFeeds::new();
    repo.memdb_add(named("alpha", at(1, 0)));
    let snapshot: Vec<TuringFeedsDB> = repo.databases().iter().map(|d| d.clone()).collect();
    drop(repo);
    let mut fresh = TuringFeeds::new();
    assert!(fresh.replace_all(snapshot));
    let (op, removed) = fresh.memdb_rm("alpha");
    assert_eq!(op, DbOps::Deleted);
    assert_eq!(removed, Some(named("alpha", at(1, 0))));
}

#[test]
fn snapshot_round_trip_keeps_documents() {
    let mut repo = TuringFeeds::new();
    let db = named("alpha", at(1, 0))
        .add_at(TFDocument::new_at(String::from("a"), at(1, 0)), at(2, 0))
        .add_at(TFDocument::new_at(String::from("b"), at(1, 5)), at(3, 0));
    repo.memdb_add(db);
    let snapshot: Vec<TuringFeedsDB> = repo.databases().iter().map(|d| d.clone()).collect();
    let mut fresh = TuringFeeds::new();
    assert!(fresh.replace_all(snapshot));
    assert_eq!(fresh.memdb_get("alpha"), repo.memdb_get("alpha"));
    assert_eq!(fresh.memdb_get("alpha").unwrap().document_count(), Some(2));
    let mut empty = TuringFeeds::new();
    assert!(empty.replace_all(Vec::new()));
    assert_eq!(empty.database_count(), 0);
}

#[test]
fn replace_all_rejects_shared_names() {
    let mut repo = TuringFeeds::new();
    repo.memdb_add(named("keep", at(1, 0)));
    let dbs = vec![named("x", at(1, 0)), named("x", at(2, 0))];
    assert!(!repo.replace_all(dbs));
    assert_eq!(repo.database_count(), 1);
    assert!(repo.memdb_get("keep").is_some());
}

#[test]
fn create_outcomes_are_distinct() {
    assert_eq!(TuringFeeds::create_outcome(Ok(())), Ok(FileOps::CreateTrue));
    assert_eq!(TuringFeeds::create_outcome(Err(DirFault::AlreadyExists)), Ok(FileOps::AlreadyExists));
    assert_eq!(TuringFeeds::create_outcome(Err(DirFault::PermissionDenied)), Ok(FileOps::WriteDenied));
    assert_eq!(TuringFeeds::create_outcome(Err(DirFault::Interrupted)), Ok(FileOps::Interrupted));
    assert_eq!(TuringFeeds::create_outcome(Err(DirFault::Other)), Err(DirFault::Other));
    assert_ne!(
        TuringFeeds::create_outcome(Ok(())),
        TuringFeeds::create_outcome(Err(DirFault::AlreadyExists))
    );
}

#[test]
fn stored_databases_must_sit_under_own_names() {
    let good = vec![(String::from("alpha"), named("alpha", at(1, 0)))];
    assert!(stored_under_own_names(&good));
    let bad = vec![(String::from("beta"), named("alpha", at(1, 0)))];
    assert!(!stored_under_own_names(&bad));
}
