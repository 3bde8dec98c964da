//! A small relational-mapping layer over an embedded SQL engine: a
//! schema registry, a statement builder, and a row materializer,
//! composed behind the [`DB`] facade.

mod db;
mod engine;
mod errors;
mod materialize;
mod registry;
mod schema;
mod statement;
mod views;

pub use db::DB;
pub use errors::DbError;
pub use materialize::build_struct_json;
pub use materialize::cells_aligned;
pub use materialize::materialize_rows;
pub use materialize::materialized;
pub use materialize::rendered_cell;
pub use materialize::row_json;
pub use registry::Registry;
pub use schema::all_in_schema;
pub use schema::all_types_legal;
pub use schema::field_in;
pub use schema::field_in_schema;
pub use schema::first_illegal_field;
pub use schema::first_illegal_is;
pub use schema::first_invalid_column;
pub use schema::first_invalid_is;
pub use schema::is_legal_type;
pub use schema::legal_type;
pub use statement::build_conditions;
pub use statement::delete_string;
pub use statement::insert_string;
pub use statement::join;
pub use statement::select_all_string;
pub use statement::spec_conditions;
pub use statement::spec_delete_string;
pub use statement::spec_insert_string;
pub use statement::spec_select_all_string;
pub use statement::spec_table_string;
pub use statement::spec_where_string;
pub use statement::table_string;
pub use statement::where_string;

use vstd::prelude::*;

verus! {

/// Implemented by record types that can describe themselves as a table:
/// the table's name together with the ordered `(field name, type name)`
/// pairs of its columns. The result is what [`DB::create_table`] takes.
pub trait MigrateTable {
    fn generate_schema() -> (String, Vec<(String, String)>);
}

} // verus!
