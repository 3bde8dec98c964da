use rsorm::DbError;
use rsorm::DB;

fn pairs(names: &[&str], values: &[&str]) -> (Vec<String>, Vec<String>) {
    assert_eq!(names.len(), values.len());
    (
        names.iter().map(|n| n.to_string()).collect(),
        values.iter().map(|v| v.to_string()).collect(),
    )
}

fn fields(decls: &[(&str, &str)]) -> Vec<(String, String)> {
    decls
        .iter()
        .map(|(n, t)| (n.to_string(), t.to_string()))
        .collect()
}

fn person_db() -> DB {
    let mut db = DB::new(":memory:").unwrap();
    db.create_table((
        "person".to_string(),
        fields(&[("name", "String"), ("age", "u64"), ("score", "f64")]),
    ))
    .unwrap();
    db
}

#[test]
fn illegal_field_type_rejected_and_absent() {
    let mut db = DB::new(":memory:").unwrap();
    for bad in ["u8", "i64", "bool", "Vec<String>", "f32"] {
        let r = db.create_table((
            "gadget".to_string(),
            fields(&[("name", "String"), ("weight", bad)]),
        ));
        assert_eq!(
            r,
            Err(DbError::InvalidFieldType(
                "weight".to_string(),
                bad.to_string()
            ))
        );
        assert!(matches!(
            db.lookup("gadget"),
            Err(DbError::TableNotFound(n)) if n == "gadget"
        ));
    }
}

#[test]
fn create_table_idempotent_by_name() {
    let mut db = person_db();
    let first = fields(&[("name", "String"), ("age", "u64"), ("score", "f64")]);
    let r = db.create_table(("person".to_string(), first.clone()));
    assert_eq!(r, Ok(()));
    assert_eq!(db.lookup("person").unwrap(), &first);

    // re-registering the same name with a different field set silently
    // keeps the original schema
    let r = db.create_table(("person".to_string(), fields(&[("other", "u64")])));
    assert_eq!(r, Ok(()));
    assert_eq!(db.lookup("person").unwrap(), &first);
}

#[test]
fn round_trip_single_record() {
    let db = person_db();
    db.insert(
        "person",
        pairs(&["name", "age", "score"], &["'Gresham'", "100000", "44.3"]),
    )
    .unwrap();

    let mut out: Vec<String> = Vec::new();
    db.select_all("person", &mut out).unwrap();
    assert_eq!(out.len(), 1);
    let record: serde_json::Value = serde_json::from_str(&out[0]).unwrap();
    assert_eq!(record["name"].as_str(), Some("Gresham"));
    assert_eq!(record["age"].as_u64(), Some(100000));
    assert_eq!(record["score"].as_f64(), Some(44.3));
}

#[test]
fn insert_unregistered_table_not_found() {
    let db = person_db();
    let r = db.insert("nonexistent", pairs(&["name"], &["'Jordan'"]));
    assert!(matches!(
        r,
        Err(DbError::TableNotFound(n)) if n == "nonexistent"
    ));

    // and no row was added to any table
    let mut out: Vec<String> = Vec::new();
    db.select_all("person", &mut out).unwrap();
    assert!(out.is_empty());
}

#[test]
fn unknown_column_rejected_without_altering_rows() {
    let db = person_db();
    db.insert(
        "person",
        pairs(&["name", "age", "score"], &["'Gresham'", "100000", "44.3"]),
    )
    .unwrap();

    let mut out: Vec<String> = Vec::new();
    let r = db.select_where("person", &mut out, pairs(&["nickname"], &["'G'"]));
    assert!(matches!(
        r,
        Err(DbError::InvalidColumn(c)) if c == "nickname"
    ));
    assert!(out.is_empty());

    let r = db.delete("person", pairs(&["nickname"], &["'G'"]));
    assert!(matches!(
        r,
        Err(DbError::InvalidColumn(c)) if c == "nickname"
    ));

    let mut all: Vec<String> = Vec::new();
    db.select_all("person", &mut all).unwrap();
    assert_eq!(all.len(), 1);
}

#[test]
fn delete_matching_nothing_succeeds_and_keeps_rows() {
    let db = person_db();
    db.insert(
        "person",
        pairs(&["name", "age", "score"], &["'Gresham'", "100000", "44.3"]),
    )
    .unwrap();

    let r = db.delete("person", pairs(&["name"], &["'Nobody'"]));
    assert_eq!(r, Ok(()));

    let mut out: Vec<String> = Vec::new();
    db.select_all("person", &mut out).unwrap();
    assert_eq!(out.len(), 1);
}

#[test]
fn delete_one_of_two_rows_keeps_the_other() {
    let db = person_db();
    db.insert(
        "person",
        pairs(&["name", "age", "score"], &["'Gresham'", "100000", "44.3"]),
    )
    .unwrap();
    db.insert(
        "person",
        pairs(&["name", "age", "score"], &["'Sandy'", "10000", "62.3"]),
    )
    .unwrap();

    let r = db.delete(
        "person",
        pairs(&["name", "age", "score"], &["'Gresham'", "100000", "44.3"]),
    );
    assert_eq!(r, Ok(()));

    let mut out: Vec<String> = Vec::new();
    db.select_all("person", &mut out).unwrap();
    assert_eq!(out.len(), 1);
    let record: serde_json::Value = serde_json::from_str(&out[0]).unwrap();
    assert_eq!(record["name"].as_str(), Some("Sandy"));
    assert_eq!(record["age"].as_u64(), Some(10000));
    assert_eq!(record["score"].as_f64(), Some(62.3));
}

#[test]
fn select_accumulates_across_calls() {
    let db = person_db();
    db.insert(
        "person",
        pairs(&["name", "age", "score"], &["'Gresham'", "100000", "44.3"]),
    )
    .unwrap();

    let mut out: Vec<String> = Vec::new();
    db.select_all("person", &mut out).unwrap();
    db.select_all("person", &mut out).unwrap();
    assert_eq!(out.len(), 2);
    assert_eq!(out[0], out[1]);
}

#[test]
fn engine_failure_reported_not_registered() {
    let mut db = DB::new(":memory:").unwrap();
    // a schema with no fields builds a statement the engine rejects
    let r = db.create_table(("empty".to_string(), Vec::new()));
    assert!(matches!(r, Err(DbError::EngineExecutionFailure(_))));
    assert!(matches!(db.lookup("empty"), Err(DbError::TableNotFound(_))));
}

#[test]
fn engine_failure_on_malformed_insert() {
    let db = person_db();
    // an empty column list passes validation but the engine rejects it
    let r = db.insert("person", pairs(&[], &[]));
    assert!(matches!(r, Err(DbError::EngineExecutionFailure(_))));
}

#[test]
fn open_failure_reported() {
    let r = DB::new("/surely/missing/directory/rsorm.db");
    assert!(matches!(r, Err(DbError::EngineExecutionFailure(_))));
}
