use vstd::prelude::*;

verus! {

/// The engine's connection handle, `sqlite::Connection`: opaque here,
/// owned by the facade, carried through every statement execution.
#[verifier::external_type_specification]
#[verifier::external_body]
pub struct ExConnection(sqlite::Connection);

/// Relies on `sqlite::open`: opens a read-write connection to a new or
/// existing database file at the given path. Whether it succeeds
/// depends on the file system, so nothing is promised of the outcome;
/// a failure is reported as the engine's own message.
#[verifier::external_body]
pub(crate) fn open_connection(dsn: &str) -> (r: Result<sqlite::Connection, String>) {
    match sqlite::open(dsn) {
        Ok(conn) => Ok(conn),
        Err(e) => Err(e.to_string()),
    }
}

/// Relies on `sqlite::Connection::execute`: runs one statement without
/// processing result rows. Whether the engine accepts the statement
/// depends on its stored state, so nothing is promised of the outcome;
/// a failure is reported as the engine's own message.
#[verifier::external_body]
pub(crate) fn execute_statement(conn: &sqlite::Connection, stmt: &str) -> (r: Result<(), String>) {
    match conn.execute(stmt) {
        Ok(()) => Ok(()),
        Err(e) => Err(e.to_string()),
    }
}

/// Relies on `sqlite::Connection::iterate`: runs one query and hands
/// every matched row to a callback as `(column, value)` pairs of plain
/// text. The wrapper flattens the cell values, row-major, into one
/// vector, turning an absent (NULL) cell into the empty string. The
/// result depends on the engine's stored state, so nothing is promised
/// of the outcome.
#[verifier::external_body]
pub(crate) fn query_values(conn: &sqlite::Connection, stmt: &str) -> (r: Result<
    Vec<String>,
    String,
>) {
    let mut vals: Vec<String> = Vec::new();
    let outcome = conn.iterate(stmt, |pairs| {
        for &(_column, value) in pairs.iter() {
            vals.push(String::from(value.unwrap_or("")));
        }
        true
    });
    match outcome {
        Ok(()) => Ok(vals),
        Err(e) => Err(e.to_string()),
    }
}

} // verus!
