use vstd::prelude::*;

use crate::errors::DbError;
use crate::statement::join;
use crate::statement::joined;
use crate::views::lemma_vec_push_deep_view;

verus! {

/// How one raw cell value appears inside a row's structured text: text
/// fields are quoted as string literals, numeric fields stay unquoted.
pub open spec fn rendered_cell(ty: Seq<char>, cell: Seq<char>) -> Seq<char> {
    if ty == "String"@ {
        "\""@ + cell + "\""@
    } else {
        cell
    }
}

/// The structured text of one result row: each field of the schema
/// contributes a `"name": value` entry, in declaration order.
pub open spec fn row_json(fields: Seq<(Seq<char>, Seq<char>)>, cells: Seq<Seq<char>>) -> Seq<
    char,
> {
    "{ "@ + join(
        Seq::new(
            fields.len(),
            |i: int| "\""@ + fields[i].0 + "\": "@ + rendered_cell(fields[i].1, cells[i]),
        ),
        ","@,
    ) + " }"@
}

/// A flat cell sequence splits into whole rows of the schema's width.
pub open spec fn cells_aligned(fields: Seq<(Seq<char>, Seq<char>)>, cells: Seq<Seq<char>>) -> bool {
    fields.len() > 0 ==> cells.len() as int % (fields.len() as int) == 0
}

/// The structured texts of all result rows: the flat cell sequence
/// partitioned into consecutive chunks of the schema's width, one row
/// per chunk, in the order the engine returned them.
pub open spec fn materialized(fields: Seq<(Seq<char>, Seq<char>)>, cells: Seq<Seq<char>>) -> Seq<
    Seq<char>,
> {
    if fields.len() == 0 {
        Seq::empty()
    } else {
        Seq::new(
            (cells.len() as int / fields.len() as int) as nat,
            |r: int|
                row_json(
                    fields,
                    cells.subrange(r * fields.len(), (r + 1) * (fields.len() as int)),
                ),
        )
    }
}

/// Builds the structured text of one result row from the schema and
/// the row's cell values, positionally aligned.
pub fn build_struct_json(fields: &Vec<(String, String)>, row: &Vec<String>) -> (r: String)
    requires
        row.len() == fields.len(),
    ensures
        r@ == row_json(fields.deep_view(), row.deep_view()),
{
    let ghost entries_spec = Seq::new(
        fields.deep_view().len(),
        |i: int| "\""@ + fields.deep_view()[i].0 + "\": "@ + rendered_cell(
            fields.deep_view()[i].1,
            row.deep_view()[i],
        ),
    );
    let mut entries: Vec<String> = Vec::new();
    let mut i: usize = 0;
    while i < fields.len()
        invariant
            i <= fields.len(),
            row.len() == fields.len(),
            entries_spec == Seq::new(
                fields.deep_view().len(),
                |k: int| "\""@ + fields.deep_view()[k].0 + "\": "@ + rendered_cell(
                    fields.deep_view()[k].1,
                    row.deep_view()[k],
                ),
            ),
            entries.deep_view() =~= entries_spec.take(i as int),
        decreases fields.len() - i,
    {
        let mut e = String::new();
        e.append("\"");
        e.append(fields[i].0.as_str());
        e.append("\": ");
        if fields[i].1 == String::from_str("String") {
            e.append("\"");
            e.append(row[i].as_str());
            e.append("\"");
        } else {
            e.append(row[i].as_str());
        }
        proof {
            assert(fields.deep_view()[i as int] == fields@[i as int].deep_view());
            assert(row.deep_view()[i as int] == row@[i as int]@);
            assert(e@ =~= "\""@ + fields.deep_view()[i as int].0 + "\": "@ + rendered_cell(
                fields.deep_view()[i as int].1,
                row.deep_view()[i as int],
            ));
        }
        let ghost pre = entries;
        let ghost pushed = e;
        entries.push(e);
        proof {
            lemma_vec_push_deep_view(pre, entries, pushed);
            assert(entries.deep_view() =~= entries_spec.take(i as int + 1));
        }
        i = i + 1;
    }
    proof {
        assert(entries_spec.take(entries_spec.len() as int) =~= entries_spec);
    }
    let mut out = String::new();
    out.append("{ ");
    let body = joined(&entries, ",");
    out.append(body.as_str());
    out.append(" }");
    out
}

/// Partitions the engine's flat cell values into whole rows and builds
/// one structured row text per chunk; a flat sequence that does not
/// split into whole rows of the schema's width is a materialization
/// failure, and no partial result is produced.
pub fn materialize_rows(fields: &Vec<(String, String)>, vals: &Vec<String>) -> (r: Result<
    Vec<String>,
    DbError,
>)
    ensures
        match r {
            Ok(rows) => cells_aligned(fields.deep_view(), vals.deep_view())
                && rows.deep_view() == materialized(fields.deep_view(), vals.deep_view()),
            Err(e) => e is MaterializationFailure && !cells_aligned(
                fields.deep_view(),
                vals.deep_view(),
            ),
        },
{
    let n = fields.len();
    if n == 0 {
        let rows: Vec<String> = Vec::new();
        proof {
            assert(rows.deep_view() =~= materialized(fields.deep_view(), vals.deep_view()));
        }
        return Ok(rows);
    }
    if vals.len() % n != 0 {
        return Err(DbError::MaterializationFailure);
    }
    let nrows = vals.len() / n;
    proof {
        vstd::arithmetic::div_mod::lemma_fundamental_div_mod(vals.len() as int, n as int);
    }
    let ghost result_spec = materialized(fields.deep_view(), vals.deep_view());
    let mut rows: Vec<String> = Vec::new();
    let mut r: usize = 0;
    while r < nrows
        invariant
            r <= nrows,
            n == fields.len(),
            n >= 1,
            nrows as int == vals.len() as int / n as int,
            vals.len() as int == n as int * nrows as int,
            result_spec == materialized(fields.deep_view(), vals.deep_view()),
            result_spec.len() == nrows,
            rows.deep_view() =~= result_spec.take(r as int),
        decreases nrows - r,
    {
        proof {
            vstd::arithmetic::mul::lemma_mul_inequality(r as int + 1, nrows as int, n as int);
            vstd::arithmetic::mul::lemma_mul_is_distributive_add_other_way(
                n as int,
                r as int,
                1,
            );
        }
        let base = r * n;
        let mut chunk: Vec<String> = Vec::new();
        let mut j: usize = 0;
        while j < n
            invariant
                j <= n,
                n == fields.len(),
                base == (r * n) as int,
                base + n <= vals.len(),
                chunk.deep_view() =~= vals.deep_view().subrange(
                    base as int,
                    base as int + j as int,
                ),
            decreases n - j,
        {
            let cell = vals[base + j].clone();
            proof {
                assert(vals.deep_view()[base as int + j as int] == vals@[base as int + j as int]@);
            }
            let ghost pre = chunk;
            let ghost pushed = cell;
            chunk.push(cell);
            proof {
                lemma_vec_push_deep_view(pre, chunk, pushed);
                assert(chunk.deep_view() =~= vals.deep_view().subrange(
                    base as int,
                    base as int + j as int + 1,
                ));
            }
            j = j + 1;
        }
        let json = build_struct_json(fields, &chunk);
        proof {
            assert(result_spec[r as int] == row_json(
                fields.deep_view(),
                vals.deep_view().subrange(
                    (r as int) * fields.deep_view().len(),
                    (r as int + 1) * (fields.deep_view().len() as int),
                ),
            ));
            assert(chunk.deep_view() =~= vals.deep_view().subrange(
                (r as int) * fields.deep_view().len(),
                (r as int + 1) * (fields.deep_view().len() as int),
            ));
        }
        let ghost pre_rows = rows;
        let ghost pushed_json = json;
        rows.push(json);
        proof {
            lemma_vec_push_deep_view(pre_rows, rows, pushed_json);
            assert(rows.deep_view() =~= result_spec.take(r as int + 1));
        }
        r = r + 1;
    }
    proof {
        assert(result_spec.take(result_spec.len() as int) =~= result_spec);
    }
    Ok(rows)
}

} // verus!
