use turingfeeds::{stored_under_own_names, DbOps, TFDocument, TaiInstant, TuringFeedsDB};

fn at(seconds: u64, nanos: u32) -> TaiInstant {
    TaiInstant::from_parts(seconds, nanos).unwrap()
}

fn doc(name: &str, t: TaiInstant) -> TFDocument {
    TFDocument::new_at(String::from(name), t)
}

#[test]
fn new_database_is_unnamed_and_empty() {
    let db = TuringFeedsDB::new();
    assert_eq!(db.name(), "");
    assert_eq!(db.document_count(), None);
    assert!(db.datetime().seconds > (1u64 << 62));
}

#[test]
fn identifier_sets_name_only() {
    let db = TuringFeedsDB::new_at(at(9, 9)).identifier("users");
    assert_eq!(db.name(), "users");
    assert_eq!(db.datetime(), at(9, 9));
    assert_eq!(db.document_count(), None);
}

#[test]
fn builder_chain_adds_one_document_and_advances_instant() {
    let db = TuringFeedsDB::new().identifier("users");
    let created = db.datetime();
    let db = db.add(TFDocument::new());
    assert_eq!(db.document_count(), Some(1));
    assert!(!db.datetime().is_before(&created));
}

#[test]
fn builder_chain_with_later_clock_reading_is_strictly_later() {
    let db = TuringFeedsDB::new_at(at(100, 0)).identifier("users");
    let created = db.datetime();
    let db = db.add_at(TFDocument::new(), at(100, 1));
    assert_eq!(db.document_count(), Some(1));
    assert!(created.is_before(&db.datetime()));
}

#[test]
fn adding_same_identifier_twice_keeps_second_and_advances_instant() {
    let db = TuringFeedsDB::new_at(at(100, 0)).identifier("users");
    let first = doc("d", at(50, 0));
    let second = doc("d", at(60, 0));
    let db = db.add_at(first, at(101, 0));
    assert_eq!(db.datetime(), at(101, 0));
    let db = db.add_at(second, at(102, 0));
    assert_eq!(db.datetime(), at(102, 0));
    assert_eq!(db.document_count(), Some(1));
    assert_eq!(db.document("d").unwrap().create_time(), at(60, 0));
}

#[test]
fn add_never_moves_instant_back() {
    let db = TuringFeedsDB::new_at(at(100, 0)).add_at(doc("a", at(1, 0)), at(90, 0));
    assert_eq!(db.datetime(), at(100, 0));
    assert_eq!(db.document_count(), Some(1));
}

#[test]
fn add_with_distinct_identifiers_keeps_both() {
    let db = TuringFeedsDB::new_at(at(1, 0))
        .add_at(doc("a", at(1, 0)), at(2, 0))
        .add_at(doc("b", at(1, 0)), at(3, 0));
    assert_eq!(db.document_count(), Some(2));
    assert!(db.document("a").is_some());
    assert!(db.document("b").is_some());
    assert!(db.document("c").is_none());
}

#[test]
fn rm_on_fresh_database_is_empty() {
    let db = TuringFeedsDB::new_at(at(5, 0)).identifier("fresh");
    let copy = db.clone();
    let (op, db) = db.rm_at("anything", at(6, 0));
    assert_eq!(op, DbOps::Empty);
    assert_eq!(db, copy);
    let (op, _) = TuringFeedsDB::new().rm("anything");
    assert_eq!(op, DbOps::Empty);
}

#[test]
fn rm_absent_document_is_key_not_found() {
    let db = TuringFeedsDB::new_at(at(5, 0)).add_at(doc("a", at(1, 0)), at(6, 0));
    let copy = db.clone();
    let (op, db) = db.rm_at("b", at(7, 0));
    assert_eq!(op, DbOps::KeyNotFound);
    assert_eq!(db, copy);
    assert_eq!(db.datetime(), at(6, 0));
}

#[test]
fn rm_present_document_is_deleted() {
    let db = TuringFeedsDB::new_at(at(5, 0))
        .add_at(doc("a", at(1, 0)), at(6, 0))
        .add_at(doc("b", at(1, 0)), at(7, 0));
    let (op, db) = db.rm_at("a", at(8, 0));
    assert_eq!(op, DbOps::Deleted);
    assert_eq!(db.document_count(), Some(1));
    assert!(db.document("a").is_none());
    assert_eq!(db.datetime(), at(8, 0));
    let (op, db) = db.rm("b");
    assert_eq!(op, DbOps::Deleted);
    assert_eq!(db.document_count(), Some(0));
    let (op, db) = db.rm("b");
    assert_eq!(op, DbOps::KeyNotFound);
    assert_eq!(db.document_count(), Some(0));
}

#[test]
fn restore_rejects_shared_identifiers() {
    let docs = vec![doc("a", at(1, 0)), doc("a", at(2, 0))];
    assert!(TuringFeedsDB::restore(String::from("x"), at(3, 0), Some(docs)).is_none());
    let bad = TaiInstant { seconds: 3, nanos: 1_000_000_000 };
    assert!(TuringFeedsDB::restore(String::from("x"), bad, None).is_none());
    let docs = vec![doc("a", at(1, 0)), doc("b", at(2, 0))];
    let db = TuringFeedsDB::restore(String::from("x"), at(3, 0), Some(docs)).unwrap();
    assert_eq!(db.name(), "x");
    assert_eq!(db.document_count(), Some(2));
    assert_eq!(db.documents().unwrap().len(), 2);
}

#[test]
fn stored_documents_must_sit_under_own_names() {
    let good = vec![(String::from("a"), doc("a", at(1, 0))), (String::from("b"), doc("b", at(1, 0)))];
    assert!(stored_under_own_names(&good));
    let bad = vec![(String::from("a"), doc("a", at(1, 0))), (String::from("x"), doc("b", at(1, 0)))];
    assert!(!stored_under_own_names(&bad));
    let none: Vec<(String, TFDocument)> = Vec::new();
    assert!(stored_under_own_names(&none));
}
