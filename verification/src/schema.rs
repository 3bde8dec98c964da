use vstd::prelude::*;

verus! {

/// A field type is legal when it is one of the three storable kinds —
/// text, 64-bit unsigned integer, 64-bit floating point — written with
/// the type names that table declarations use.
pub open spec fn is_legal_type(t: Seq<char>) -> bool {
    t == "String"@ || t == "u64"@ || t == "f64"@
}

/// A field name occurs in a schema's field list.
pub open spec fn field_in_schema(fields: Seq<(Seq<char>, Seq<char>)>, name: Seq<char>) -> bool {
    exists|j: int| 0 <= j < fields.len() && (#[trigger] fields[j]).0 == name
}

/// Every referenced name occurs in the schema's field list.
pub open spec fn all_in_schema(fields: Seq<(Seq<char>, Seq<char>)>, names: Seq<Seq<char>>) -> bool {
    forall|i: int| 0 <= i < names.len() ==> field_in_schema(fields, #[trigger] names[i])
}

/// Every declared field's type belongs to the legal set.
pub open spec fn all_types_legal(fields: Seq<(Seq<char>, Seq<char>)>) -> bool {
    forall|i: int| 0 <= i < fields.len() ==> is_legal_type((#[trigger] fields[i]).1)
}

/// `(name, ty)` is the first declared field, in declaration order,
/// whose type is outside the legal set.
pub open spec fn first_illegal_is(
    fields: Seq<(Seq<char>, Seq<char>)>,
    name: Seq<char>,
    ty: Seq<char>,
) -> bool {
    exists|k: int|
        0 <= k < fields.len() && !is_legal_type((#[trigger] fields[k]).1) && fields[k].0 == name
            && fields[k].1 == ty && (forall|j: int|
            0 <= j < k ==> is_legal_type((#[trigger] fields[j]).1))
}

/// `c` is the first referenced name, in reference order, that is
/// absent from the schema's field list.
pub open spec fn first_invalid_is(
    fields: Seq<(Seq<char>, Seq<char>)>,
    names: Seq<Seq<char>>,
    c: Seq<char>,
) -> bool {
    exists|k: int|
        0 <= k < names.len() && !field_in_schema(fields, #[trigger] names[k]) && names[k] == c && (
        forall|j: int| 0 <= j < k ==> field_in_schema(fields, #[trigger] names[j]))
}

/// Decides whether a declared field type belongs to the legal set.
pub fn legal_type(t: &String) -> (r: bool)
    ensures
        r == is_legal_type(t@),
{
    *t == String::from_str("String") || *t == String::from_str("u64") || *t == String::from_str(
        "f64",
    )
}

/// Finds the first declared field whose type is outside the legal set,
/// if there is one.
pub fn first_illegal_field(fields: &Vec<(String, String)>) -> (r: Option<usize>)
    ensures
        match r {
            Some(i) => i < fields.len() && !is_legal_type(fields.deep_view()[i as int].1)
                && forall|j: int|
                0 <= j < i ==> is_legal_type(#[trigger] fields.deep_view()[j].1),
            None => forall|j: int|
                0 <= j < fields.len() ==> is_legal_type(#[trigger] fields.deep_view()[j].1),
        },
{
    let mut i: usize = 0;
    while i < fields.len()
        invariant
            i <= fields.len(),
            forall|j: int| 0 <= j < i ==> is_legal_type(#[trigger] fields.deep_view()[j].1),
        decreases fields.len() - i,
    {
        if !legal_type(&fields[i].1) {
            return Some(i);
        }
        i = i + 1;
    }
    None
}

/// Decides whether a referenced name occurs in the schema's field list.
pub fn field_in(fields: &Vec<(String, String)>, name: &String) -> (r: bool)
    ensures
        r == field_in_schema(fields.deep_view(), name@),
{
    let mut j: usize = 0;
    while j < fields.len()
        invariant
            j <= fields.len(),
            forall|k: int| 0 <= k < j ==> (#[trigger] fields.deep_view()[k]).0 != name@,
        decreases fields.len() - j,
    {
        if fields[j].0 == *name {
            proof {
                assert(fields.deep_view()[j as int] == fields@[j as int].deep_view());
            }
            return true;
        }
        j = j + 1;
    }
    false
}

/// Finds the first referenced name that is absent from the schema's
/// field list, if there is one: the column-validation pass that every
/// statement-building operation runs first.
pub fn first_invalid_column(fields: &Vec<(String, String)>, names: &Vec<String>) -> (r: Option<
    usize,
>)
    ensures
        match r {
            Some(k) => k < names.len() && !field_in_schema(
                fields.deep_view(),
                names.deep_view()[k as int],
            ) && forall|i: int|
                0 <= i < k ==> field_in_schema(fields.deep_view(), #[trigger] names.deep_view()[i]),
            None => all_in_schema(fields.deep_view(), names.deep_view()),
        },
{
    let mut k: usize = 0;
    while k < names.len()
        invariant
            k <= names.len(),
            forall|i: int|
                0 <= i < k ==> field_in_schema(fields.deep_view(), #[trigger] names.deep_view()[i]),
        decreases names.len() - k,
    {
        if !field_in(fields, &names[k]) {
            return Some(k);
        }
        k = k + 1;
    }
    None
}

} // verus!
