use rsorm::DB;
use rsorm::MigrateTable;

struct TestModel;

impl MigrateTable for TestModel {
    fn generate_schema() -> (String, Vec<(String, String)>) {
        (
            "testModel".to_string(),
            vec![
                ("city".to_string(), "String".to_string()),
                ("population".to_string(), "u64".to_string()),
                ("avg_age".to_string(), "f64".to_string()),
            ],
        )
    }
}

struct TestBadModel;

impl MigrateTable for TestBadModel {
    fn generate_schema() -> (String, Vec<(String, String)>) {
        (
            "testBadModel".to_string(),
            vec![
                ("city".to_string(), "String".to_string()),
                ("population".to_string(), "u8".to_string()),
                ("avg_age".to_string(), "f64".to_string()),
            ],
        )
    }
}

fn pairs(names: &[&str], values: &[&str]) -> (Vec<String>, Vec<String>) {
    assert_eq!(names.len(), values.len());
    (
        names.iter().map(|n| n.to_string()).collect(),
        values.iter().map(|v| v.to_string()).collect(),
    )
}

fn setup() -> DB {
    let mut db = DB::new(":memory:").unwrap();
    db.create_table(TestModel::generate_schema()).unwrap();
    db
}

// One dispatching test keeps the sub-scenarios in a fixed order, as a
// single connection-heavy suite.
#[test]
fn run_db_tests() {
    test_create_badtable();
    test_insert_valid();
    test_insert_bad();
    test_insert_badcolumn();
    test_delete_nonexistent();
    test_delete_valid();
    test_delete_badcondition();
    test_select_all_happy();
    test_select_all_badtable();
    test_select_where_happy();
    test_select_where_badtable();
    test_select_where_badcolumn();
}

fn test_create_badtable() {
    let mut db = setup();
    let result = db.create_table(TestBadModel::generate_schema());
    assert!(result.is_err());
}

fn test_insert_valid() {
    let db = setup();
    let result = db.insert(
        "testModel",
        pairs(
            &["city", "population", "avg_age"],
            &["'Gresham'", "100000", "44.3"],
        ),
    );
    assert!(result.is_ok());

    let mut out: Vec<String> = Vec::new();
    db.select_all("testModel", &mut out).unwrap();
    assert_eq!(1, out.len());
}

fn test_insert_bad() {
    let db = setup();
    let result = db.insert(
        "Model",
        pairs(&["name", "age", "birthday"], &["'Jordan'", "8", "'idk'"]),
    );
    assert!(result.is_err());
}

fn test_insert_badcolumn() {
    let db = setup();
    let result = db.insert(
        "testModel",
        pairs(
            &["bad", "population", "avg_age"],
            &["'Gresham'", "100000", "44.3"],
        ),
    );
    assert!(result.is_err());
}

fn test_delete_nonexistent() {
    // the engine treats a delete that matches nothing as a success
    let db = setup();
    let result = db.delete(
        "testModel",
        pairs(
            &["city", "population", "avg_age"],
            &["'Gresham'", "100000", "44.3"],
        ),
    );
    assert!(result.is_ok());
}

fn test_delete_valid() {
    let db = setup();
    db.insert(
        "testModel",
        pairs(
            &["city", "population", "avg_age"],
            &["'Gresham'", "100000", "44.3"],
        ),
    )
    .unwrap();

    let result = db.delete(
        "testModel",
        pairs(
            &["city", "population", "avg_age"],
            &["'Gresham'", "100000", "44.3"],
        ),
    );
    assert!(result.is_ok());

    let mut out: Vec<String> = Vec::new();
    db.select_all("testModel", &mut out).unwrap();
    assert_eq!(0, out.len());
}

fn test_delete_badcondition() {
    let db = setup();
    db.insert(
        "testModel",
        pairs(
            &["city", "population", "avg_age"],
            &["'Gresham'", "100000", "44.3"],
        ),
    )
    .unwrap();

    let result = db.delete(
        "testModel",
        pairs(
            &["citymispelled", "population", "avg_age"],
            &["'Gresham'", "100000", "44.3"],
        ),
    );
    assert!(result.is_err());

    let mut out: Vec<String> = Vec::new();
    db.select_all("testModel", &mut out).unwrap();
    assert_eq!(1, out.len());
}

fn test_select_all_happy() {
    let db = setup();
    db.insert(
        "testModel",
        pairs(
            &["city", "population", "avg_age"],
            &["'Gresham'", "100000", "44.3"],
        ),
    )
    .unwrap();
    db.insert(
        "testModel",
        pairs(
            &["city", "population", "avg_age"],
            &["'Sandy'", "10000", "62.3"],
        ),
    )
    .unwrap();

    let mut out: Vec<String> = Vec::new();
    let result = db.select_all("testModel", &mut out);
    assert!(result.is_ok());
    assert_eq!(2, out.len());
}

fn test_select_all_badtable() {
    let db = setup();
    db.insert(
        "testModel",
        pairs(
            &["city", "population", "avg_age"],
            &["'Gresham'", "100000", "44.3"],
        ),
    )
    .unwrap();
    db.insert(
        "testModel",
        pairs(
            &["city", "population", "avg_age"],
            &["'Sandy'", "10000", "62.3"],
        ),
    )
    .unwrap();

    let mut out: Vec<String> = Vec::new();
    let result = db.select_all("idontexist", &mut out);
    assert!(result.is_err());
}

fn test_select_where_happy() {
    let db = setup();
    db.insert(
        "testModel",
        pairs(
            &["city", "population", "avg_age"],
            &["'Gresham'", "100000", "44.3"],
        ),
    )
    .unwrap();
    db.insert(
        "testModel",
        pairs(
            &["city", "population", "avg_age"],
            &["'Sandy'", "10000", "62.3"],
        ),
    )
    .unwrap();

    let mut out: Vec<String> = Vec::new();
    let result = db.select_where("testModel", &mut out, pairs(&["city"], &["'Gresham'"]));
    assert!(result.is_ok());
    assert_eq!(1, out.len());

    for c in out {
        let record: serde_json::Value = serde_json::from_str(&c).unwrap();
        assert_eq!(record["city"].as_str(), Some("Gresham"));
    }
}

fn test_select_where_badtable() {
    let db = setup();
    db.insert(
        "testModel",
        pairs(
            &["city", "population", "avg_age"],
            &["'Gresham'", "100000", "44.3"],
        ),
    )
    .unwrap();
    db.insert(
        "testModel",
        pairs(
            &["city", "population", "avg_age"],
            &["'Sandy'", "10000", "62.3"],
        ),
    )
    .unwrap();

    let mut out: Vec<String> = Vec::new();
    let result = db.select_where("idontexist", &mut out, pairs(&["avg_age"], &["62.3"]));
    assert!(result.is_err());
}

fn test_select_where_badcolumn() {
    let db = setup();
    db.insert(
        "testModel",
        pairs(
            &["city", "population", "avg_age"],
            &["'Gresham'", "100000", "44.3"],
        ),
    )
    .unwrap();
    db.insert(
        "testModel",
        pairs(
            &["city", "population", "avg_age"],
            &["'Sandy'", "10000", "62.3"],
        ),
    )
    .unwrap();

    let mut out: Vec<String> = Vec::new();
    let result = db.select_where("testModel", &mut out, pairs(&["bad"], &["62.3"]));
    assert!(result.is_err());
}
