use vstd::prelude::*;

use crate::engine::execute_statement;
use crate::engine::open_connection;
use crate::engine::query_values;
use crate::errors::DbError;
use crate::materialize::cells_aligned;
use crate::materialize::materialized;
use crate::materialize::materialize_rows;
use crate::registry::Registry;
use crate::schema::all_in_schema;
use crate::schema::all_types_legal;
use crate::schema::first_illegal_field;
use crate::schema::first_illegal_is;
use crate::schema::first_invalid_column;
use crate::schema::first_invalid_is;
use crate::statement::insert_string;
use crate::statement::delete_string;
use crate::statement::select_all_string;
use crate::statement::table_string;
use crate::statement::where_string;
use crate::views::lemma_vec_concat_deep_view;

verus! {

/// The facade: owns the schema registry and the single engine
/// connection, and composes validation, statement building, execution
/// and materialization into the public operations.
///
/// The registered schemas are the model that every contract speaks
/// of: a map from table name to the ordered `(field name, type name)`
/// descriptors fixed at registration.
pub struct DB {
    dsn: &'static str,
    tables: Registry,
    conn: sqlite::Connection,
}

impl DB {
    /// The registered schemas: table name to ordered field descriptors.
    pub closed spec fn schemas(&self) -> Map<Seq<char>, Seq<(Seq<char>, Seq<char>)>> {
        self.tables.schemas()
    }

    /// Well-formed: the registry holds each table name once.
    pub closed spec fn wf(&self) -> bool {
        self.tables.wf()
    }

    /// Opens (creating it if absent) the database file at `dsn` and
    /// starts with no registered table.
    pub fn new(dsn: &'static str) -> (r: Result<DB, DbError>)
        ensures
            match r {
                Ok(db) => db.wf() && db.schemas() == Map::<
                    Seq<char>,
                    Seq<(Seq<char>, Seq<char>)>,
                >::empty(),
                Err(e) => e is EngineExecutionFailure,
            },
    {
        match open_connection(dsn) {
            Ok(conn) => Ok(DB { dsn, tables: Registry::new(), conn }),
            Err(m) => Err(DbError::EngineExecutionFailure(m)),
        }
    }

    /// Pure read: the registered fields of a table.
    pub fn lookup(&self, table: &str) -> (r: Result<&Vec<(String, String)>, DbError>)
        requires
            self.wf(),
        ensures
            match r {
                Ok(fields) => self.schemas().contains_key(table@) && fields.deep_view()
                    == self.schemas()[table@],
                Err(e) => !self.schemas().contains_key(table@) && (e matches
                DbError::TableNotFound(n) && n@ == table@),
            },
    {
        match self.tables.lookup(table) {
            Some(fields) => Ok(fields),
            None => Err(DbError::TableNotFound(String::from_str(table))),
        }
    }

    /// Registers a table: validates every declared field type, then
    /// asks the engine to create the table if absent and stores the
    /// schema. A name already registered is a success that changes
    /// nothing — not a re-validation and not an overwrite — so
    /// registration is idempotent by name. A schema with a type
    /// outside the legal set is rejected with that first field and no
    /// change. An engine failure leaves the registry unchanged.
    pub fn create_table(&mut self, schema: (String, Vec<(String, String)>)) -> (r: Result<
        (),
        DbError,
    >)
        requires
            old(self).wf(),
        ensures
            final(self).wf(),
            old(self).schemas().contains_key(schema.0@) ==> r is Ok && final(self).schemas()
                == old(self).schemas(),
            !old(self).schemas().contains_key(schema.0@) && all_types_legal(schema.1.deep_view())
                ==> (r is Ok && final(self).schemas() == old(self).schemas().insert(
                schema.0@,
                schema.1.deep_view(),
            )) || (final(self).schemas() == old(self).schemas() && (r matches Err(e)
                && e is EngineExecutionFailure)),
            !old(self).schemas().contains_key(schema.0@) && !all_types_legal(schema.1.deep_view())
                ==> final(self).schemas() == old(self).schemas() && (r matches Err(e)
                && e matches DbError::InvalidFieldType(f, t) && first_illegal_is(
                schema.1.deep_view(),
                f@,
                t@,
            )),
    {
        let name = schema.0;
        let fields = schema.1;
        if self.tables.contains(name.as_str()) {
            return Ok(());
        }
        match first_illegal_field(&fields) {
            Some(i) => {
                proof {
                    assert(fields.deep_view()[i as int] == fields@[i as int].deep_view());
                }
                return Err(DbError::InvalidFieldType(fields[i].0.clone(), fields[i].1.clone()));
            },
            None => {},
        }
        let ts = table_string(name.as_str(), &fields);
        match execute_statement(&self.conn, ts.as_str()) {
            Ok(()) => {
                self.tables.store(name, fields);
                Ok(())
            },
            Err(m) => Err(DbError::EngineExecutionFailure(m)),
        }
    }

    /// Registration is idempotent by name: once a registration has
    /// succeeded, the name is in the registered map and bound to the
    /// fields it was registered with, so `create_table`'s
    /// already-registered clause governs every later call with that
    /// name — success, with the schemas unchanged and the original
    /// field set kept.
    pub proof fn lemma_registration_idempotent(
        schemas: Map<Seq<char>, Seq<(Seq<char>, Seq<char>)>>,
        name: Seq<char>,
        fields: Seq<(Seq<char>, Seq<char>)>,
    )
        ensures
            schemas.insert(name, fields).contains_key(name),
            schemas.insert(name, fields)[name] == fields,
    {
    }

    /// Inserts one row: fails with `TableNotFound` on an unregistered
    /// table and with `InvalidColumn` on the first referenced name
    /// outside the schema, both before any engine call; otherwise the
    /// built insert statement is handed to the engine, whose verdict
    /// is the result.
    pub fn insert(&self, table: &str, data: (Vec<String>, Vec<String>)) -> (r: Result<(), DbError>)
        requires
            self.wf(),
            data.0.len() == data.1.len(),
        ensures
            !self.schemas().contains_key(table@) ==> (r matches Err(e)
                && (e matches DbError::TableNotFound(n) && n@ == table@)),
            self.schemas().contains_key(table@) && !all_in_schema(
                self.schemas()[table@],
                data.0.deep_view(),
            ) ==> (r matches Err(e) && (e matches DbError::InvalidColumn(c)
                && first_invalid_is(self.schemas()[table@], data.0.deep_view(), c@))),
            self.schemas().contains_key(table@) && all_in_schema(
                self.schemas()[table@],
                data.0.deep_view(),
            ) ==> r is Ok || (r matches Err(e) && e is EngineExecutionFailure),
    {
        let fields = match self.tables.lookup(table) {
            Some(fields) => fields,
            None => {
                return Err(DbError::TableNotFound(String::from_str(table)));
            },
        };
        match first_invalid_column(fields, &data.0) {
            Some(k) => {
                proof {
                    assert(data.0.deep_view()[k as int] == data.0@[k as int]@);
                }
                return Err(DbError::InvalidColumn(data.0[k].clone()));
            },
            None => {},
        }
        let is = insert_string(table, data);
        match execute_statement(&self.conn, is.as_str()) {
            Ok(()) => Ok(()),
            Err(m) => Err(DbError::EngineExecutionFailure(m)),
        }
    }

    /// Deletes every row matching the conjunction of the conditions:
    /// the same validation as `insert`, then the engine's verdict.
    /// Conditions that match no stored row are the engine's documented
    /// no-op success, not an error.
    pub fn delete(&self, table: &str, data: (Vec<String>, Vec<String>)) -> (r: Result<(), DbError>)
        requires
            self.wf(),
            data.0.len() == data.1.len(),
            data.0.len() >= 1,
        ensures
            !self.schemas().contains_key(table@) ==> (r matches Err(e)
                && (e matches DbError::TableNotFound(n) && n@ == table@)),
            self.schemas().contains_key(table@) && !all_in_schema(
                self.schemas()[table@],
                data.0.deep_view(),
            ) ==> (r matches Err(e) && (e matches DbError::InvalidColumn(c)
                && first_invalid_is(self.schemas()[table@], data.0.deep_view(), c@))),
            self.schemas().contains_key(table@) && all_in_schema(
                self.schemas()[table@],
                data.0.deep_view(),
            ) ==> r is Ok || (r matches Err(e) && e is EngineExecutionFailure),
    {
        let fields = match self.tables.lookup(table) {
            Some(fields) => fields,
            None => {
                return Err(DbError::TableNotFound(String::from_str(table)));
            },
        };
        match first_invalid_column(fields, &data.0) {
            Some(k) => {
                proof {
                    assert(data.0.deep_view()[k as int] == data.0@[k as int]@);
                }
                return Err(DbError::InvalidColumn(data.0[k].clone()));
            },
            None => {},
        }
        let ds = delete_string(table, data);
        match execute_statement(&self.conn, ds.as_str()) {
            Ok(()) => Ok(()),
            Err(m) => Err(DbError::EngineExecutionFailure(m)),
        }
    }

    /// Runs a built query, materializes the engine's flat result into
    /// structured row texts, and appends them to `objects`. On any
    /// failure `objects` is untouched: a failed materialization
    /// discards the whole result set.
    fn select_query(
        &self,
        fields: &Vec<(String, String)>,
        q: &str,
        objects: &mut Vec<String>,
    ) -> (r: Result<(), DbError>)
        ensures
            (r is Ok && exists|cells: Seq<Seq<char>>|
                cells_aligned(fields.deep_view(), cells) && final(objects).deep_view()
                    == old(objects).deep_view()
                    + #[trigger] materialized(fields.deep_view(), cells))
            || (*final(objects) == *old(objects) && (r matches Err(e)
                && (e is EngineExecutionFailure || e is MaterializationFailure))),
    {
        let vals = match query_values(&self.conn, q) {
            Ok(vals) => vals,
            Err(m) => {
                return Err(DbError::EngineExecutionFailure(m));
            },
        };
        let mut rows = match materialize_rows(fields, &vals) {
            Ok(rows) => rows,
            Err(e) => {
                return Err(e);
            },
        };
        let ghost pre = *objects;
        let ghost added = rows;
        objects.append(&mut rows);
        proof {
            lemma_vec_concat_deep_view(pre, *objects, added@);
            assert(Seq::new(added@.len(), |i: int| added@[i].deep_view()) =~= added.deep_view());
            assert(final(objects).deep_view() == old(objects).deep_view() + materialized(
                fields.deep_view(),
                vals.deep_view(),
            ));
        }
        Ok(())
    }

    /// Selects every row of the table and appends one structured row
    /// text per result row to `objects`, in the engine's return order;
    /// repeated calls accumulate.
    pub fn select_all(&self, table: &str, objects: &mut Vec<String>) -> (r: Result<(), DbError>)
        requires
            self.wf(),
        ensures
            !self.schemas().contains_key(table@) ==> *final(objects) == *old(objects) && (r matches
            Err(e) && (e matches DbError::TableNotFound(n) && n@ == table@)),
            self.schemas().contains_key(table@) ==> (r is Ok && exists|cells: Seq<Seq<char>>|
                cells_aligned(self.schemas()[table@], cells) && final(objects).deep_view()
                    == old(objects).deep_view()
                    + #[trigger] materialized(self.schemas()[table@], cells))
            || (*final(objects) == *old(objects) && (r matches Err(e)
                && (e is EngineExecutionFailure || e is MaterializationFailure))),
    {
        let fields = match self.tables.lookup(table) {
            Some(fields) => fields,
            None => {
                return Err(DbError::TableNotFound(String::from_str(table)));
            },
        };
        let q = select_all_string(table);
        self.select_query(fields, q.as_str(), objects)
    }

    /// Selects the rows matching the conjunction of the conditions and
    /// appends one structured row text per result row to `objects`;
    /// the same validation as `delete`, and repeated calls accumulate.
    pub fn select_where(
        &self,
        table: &str,
        objects: &mut Vec<String>,
        data: (Vec<String>, Vec<String>),
    ) -> (r: Result<(), DbError>)
        requires
            self.wf(),
            data.0.len() == data.1.len(),
            data.0.len() >= 1,
        ensures
            !self.schemas().contains_key(table@) ==> *final(objects) == *old(objects) && (r matches
            Err(e) && (e matches DbError::TableNotFound(n) && n@ == table@)),
            self.schemas().contains_key(table@) && !all_in_schema(
                self.schemas()[table@],
                data.0.deep_view(),
            ) ==> *final(objects) == *old(objects) && (r matches Err(e) && (e matches
            DbError::InvalidColumn(c) && first_invalid_is(
                self.schemas()[table@],
                data.0.deep_view(),
                c@,
            ))),
            self.schemas().contains_key(table@) && all_in_schema(
                self.schemas()[table@],
                data.0.deep_view(),
            ) ==> (r is Ok && exists|cells: Seq<Seq<char>>|
                cells_aligned(self.schemas()[table@], cells) && final(objects).deep_view()
                    == old(objects).deep_view()
                    + #[trigger] materialized(self.schemas()[table@], cells))
            || (*final(objects) == *old(objects) && (r matches Err(e)
                && (e is EngineExecutionFailure || e is MaterializationFailure))),
    {
        let fields = match self.tables.lookup(table) {
            Some(fields) => fields,
            None => {
                return Err(DbError::TableNotFound(String::from_str(table)));
            },
        };
        match first_invalid_column(fields, &data.0) {
            Some(k) => {
                proof {
                    assert(data.0.deep_view()[k as int] == data.0@[k as int]@);
                }
                return Err(DbError::InvalidColumn(data.0[k].clone()));
            },
            None => {},
        }
        let q = where_string(table, data);
        self.select_query(fields, q.as_str(), objects)
    }
}

} // verus!
