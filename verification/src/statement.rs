use vstd::prelude::*;

use crate::views::lemma_vec_push_deep_view;

verus! {

/// The parts, in order, separated by `sep`.
pub open spec fn join(parts: Seq<Seq<char>>, sep: Seq<char>) -> Seq<char>
    decreases parts.len(),
{
    if parts.len() == 0 {
        Seq::empty()
    } else if parts.len() == 1 {
        parts[0]
    } else {
        join(parts.drop_last(), sep) + sep + parts.last()
    }
}

/// Extending a joined prefix by one more part appends one separator
/// and that part (no separator before the very first part).
proof fn lemma_join_step(parts: Seq<Seq<char>>, sep: Seq<char>, i: int)
    requires
        0 <= i < parts.len(),
    ensures
        i == 0 ==> join(parts.take(1), sep) == parts[0],
        i > 0 ==> join(parts.take(i + 1), sep) == join(parts.take(i), sep) + sep + parts[i],
{
    if i == 0 {
        assert(parts.take(1)[0] == parts[0]);
    } else {
        assert(parts.take(i + 1).drop_last() =~= parts.take(i));
        assert(parts.take(i + 1).last() == parts[i]);
    }
}

/// Joins the parts with the separator, left to right.
pub fn joined(parts: &Vec<String>, sep: &str) -> (r: String)
    ensures
        r@ == join(parts.deep_view(), sep@),
{
    let mut out = String::new();
    let mut i: usize = 0;
    while i < parts.len()
        invariant
            i <= parts.len(),
            out@ == join(parts.deep_view().take(i as int), sep@),
        decreases parts.len() - i,
    {
        if i > 0 {
            out.append(sep);
        }
        out.append(parts[i].as_str());
        proof {
            assert(parts.deep_view()[i as int] == parts@[i as int].deep_view());
            lemma_join_step(parts.deep_view(), sep@, i as int);
        }
        i = i + 1;
    }
    proof {
        assert(parts.deep_view().take(parts.deep_view().len() as int) =~= parts.deep_view());
    }
    out
}

/// The text of an insert statement: the caller's field names and value
/// literals in declaration order, each list comma-joined in
/// parentheses.
pub open spec fn spec_insert_string(
    name: Seq<char>,
    fields: Seq<Seq<char>>,
    values: Seq<Seq<char>>,
) -> Seq<char> {
    "INSERT INTO "@ + name + " ("@ + join(fields, ","@) + ") VALUES ("@ + join(values, ","@)
        + ")"@
}

/// The conjunction of `field=value` terms, ` AND `-joined and wrapped
/// in parentheses.
pub open spec fn spec_conditions(names: Seq<Seq<char>>, values: Seq<Seq<char>>) -> Seq<char> {
    "("@ + join(Seq::new(names.len(), |i: int| names[i] + "="@ + values[i]), " AND "@) + ")"@
}

/// The text of a conditional select statement.
pub open spec fn spec_where_string(
    name: Seq<char>,
    cond_names: Seq<Seq<char>>,
    cond_values: Seq<Seq<char>>,
) -> Seq<char> {
    "SELECT * FROM "@ + name + " WHERE "@ + spec_conditions(cond_names, cond_values)
}

/// The text of a delete statement.
pub open spec fn spec_delete_string(
    name: Seq<char>,
    cond_names: Seq<Seq<char>>,
    cond_values: Seq<Seq<char>>,
) -> Seq<char> {
    "DELETE FROM "@ + name + " WHERE "@ + spec_conditions(cond_names, cond_values)
}

/// The text of an unconditional select statement.
pub open spec fn spec_select_all_string(name: Seq<char>) -> Seq<char> {
    "SELECT * FROM "@ + name
}

/// The text of a table-creation statement: one ` <name> <type>` column
/// declaration per field, comma-joined, guarded by `IF NOT EXISTS`.
pub open spec fn spec_table_string(name: Seq<char>, fields: Seq<(Seq<char>, Seq<char>)>) -> Seq<
    char,
> {
    "CREATE TABLE IF NOT EXISTS "@ + name + " ("@ + join(
        Seq::new(fields.len(), |i: int| " "@ + fields[i].0 + " "@ + fields[i].1),
        ","@,
    ) + " );"@
}

/// Builds the `field=value` terms of a condition set, in order.
fn condition_terms(data: &(Vec<String>, Vec<String>)) -> (r: Vec<String>)
    requires
        data.0.len() == data.1.len(),
    ensures
        r.deep_view() == Seq::new(
            data.0.deep_view().len(),
            |i: int| data.0.deep_view()[i] + "="@ + data.1.deep_view()[i],
        ),
{
    let ghost terms = Seq::new(
        data.0.deep_view().len(),
        |i: int| data.0.deep_view()[i] + "="@ + data.1.deep_view()[i],
    );
    let mut out: Vec<String> = Vec::new();
    let mut i: usize = 0;
    while i < data.0.len()
        invariant
            i <= data.0.len(),
            data.0.len() == data.1.len(),
            terms == Seq::new(
                data.0.deep_view().len(),
                |k: int| data.0.deep_view()[k] + "="@ + data.1.deep_view()[k],
            ),
            out.deep_view() =~= terms.take(i as int),
        decreases data.0.len() - i,
    {
        let mut term = String::new();
        term.append(data.0[i].as_str());
        term.append("=");
        term.append(data.1[i].as_str());
        proof {
            assert(data.0.deep_view()[i as int] == data.0@[i as int]@);
            assert(data.1.deep_view()[i as int] == data.1@[i as int]@);
            assert(term@ =~= data.0.deep_view()[i as int] + "="@ + data.1.deep_view()[i as int]);
        }
        let ghost pre = out;
        let ghost pushed = term;
        out.push(term);
        proof {
            lemma_vec_push_deep_view(pre, out, pushed);
            assert(out.deep_view() =~= terms.take(i as int + 1));
        }
        i = i + 1;
    }
    proof {
        assert(terms.take(terms.len() as int) =~= terms);
    }
    out
}

/// Builds the conjunctive predicate text of a condition set:
/// `(f1=v1 AND f2=v2 AND ...)`.
pub fn build_conditions(data: (Vec<String>, Vec<String>)) -> (r: String)
    requires
        data.0.len() == data.1.len(),
        data.0.len() >= 1,
    ensures
        r@ == spec_conditions(data.0.deep_view(), data.1.deep_view()),
{
    let terms = condition_terms(&data);
    let mut out = String::new();
    out.append("(");
    let t = joined(&terms, " AND ");
    out.append(t.as_str());
    out.append(")");
    out
}

/// Builds the text of an insert statement from the caller's
/// field-name and value lists.
pub fn insert_string(name: &str, data: (Vec<String>, Vec<String>)) -> (r: String)
    requires
        data.0.len() == data.1.len(),
    ensures
        r@ == spec_insert_string(name@, data.0.deep_view(), data.1.deep_view()),
{
    let mut out = String::new();
    out.append("INSERT INTO ");
    out.append(name);
    out.append(" (");
    let f = joined(&data.0, ",");
    out.append(f.as_str());
    out.append(") VALUES (");
    let v = joined(&data.1, ",");
    out.append(v.as_str());
    out.append(")");
    out
}

/// Builds the text of an unconditional select statement.
pub fn select_all_string(name: &str) -> (r: String)
    ensures
        r@ == spec_select_all_string(name@),
{
    let mut out = String::new();
    out.append("SELECT * FROM ");
    out.append(name);
    out
}

/// Builds the text of a delete statement from a condition set.
pub fn delete_string(name: &str, data: (Vec<String>, Vec<String>)) -> (r: String)
    requires
        data.0.len() == data.1.len(),
        data.0.len() >= 1,
    ensures
        r@ == spec_delete_string(name@, data.0.deep_view(), data.1.deep_view()),
{
    let mut out = String::new();
    out.append("DELETE FROM ");
    out.append(name);
    out.append(" WHERE ");
    let c = build_conditions(data);
    out.append(c.as_str());
    out
}

/// Builds the text of a conditional select statement from a condition
/// set.
pub fn where_string(name: &str, data: (Vec<String>, Vec<String>)) -> (r: String)
    requires
        data.0.len() == data.1.len(),
        data.0.len() >= 1,
    ensures
        r@ == spec_where_string(name@, data.0.deep_view(), data.1.deep_view()),
{
    let mut out = String::new();
    out.append("SELECT * FROM ");
    out.append(name);
    out.append(" WHERE ");
    let c = build_conditions(data);
    out.append(c.as_str());
    out
}

/// Builds the text of a table-creation statement from a schema's
/// ordered field descriptors.
pub fn table_string(name: &str, fields: &Vec<(String, String)>) -> (r: String)
    ensures
        r@ == spec_table_string(name@, fields.deep_view()),
{
    let ghost cols = Seq::new(
        fields.deep_view().len(),
        |i: int| " "@ + fields.deep_view()[i].0 + " "@ + fields.deep_view()[i].1,
    );
    let mut decls: Vec<String> = Vec::new();
    let mut i: usize = 0;
    while i < fields.len()
        invariant
            i <= fields.len(),
            cols == Seq::new(
                fields.deep_view().len(),
                |k: int| " "@ + fields.deep_view()[k].0 + " "@ + fields.deep_view()[k].1,
            ),
            decls.deep_view() =~= cols.take(i as int),
        decreases fields.len() - i,
    {
        let mut d = String::new();
        d.append(" ");
        d.append(fields[i].0.as_str());
        d.append(" ");
        d.append(fields[i].1.as_str());
        proof {
            assert(fields.deep_view()[i as int] == fields@[i as int].deep_view());
            assert(d@ =~= " "@ + fields.deep_view()[i as int].0 + " "@ + fields.deep_view()[
                i as int
            ].1);
        }
        let ghost pre = decls;
        let ghost pushed = d;
        decls.push(d);
        proof {
            lemma_vec_push_deep_view(pre, decls, pushed);
            assert(decls.deep_view() =~= cols.take(i as int + 1));
        }
        i = i + 1;
    }
    proof {
        assert(cols.take(cols.len() as int) =~= cols);
    }
    let mut out = String::new();
    out.append("CREATE TABLE IF NOT EXISTS ");
    out.append(name);
    out.append(" (");
    let c = joined(&decls, ",");
    out.append(c.as_str());
    out.append(" );");
    out
}

} // verus!
