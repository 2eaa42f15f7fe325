use vstd::prelude::*;
use crate::query::fields::{find, field_name, is_field_name, lookup_field, FieldDef};
use crate::text::{chars_of, concat3, slice_chars, string_of};

verus! {

/// A `--sort` expression: the column name and whether the order is descending (a leading `-`).
pub open spec fn sort_spec(expr: Seq<char>) -> (Seq<char>, bool) {
    if expr.len() > 0 && expr[0] == '-' {
        (expr.drop_first(), true)
    } else {
        (expr, false)
    }
}

/// The message for an unknown column in a `--sort` expression.
pub open spec fn unknown_sort_field_message(field: Seq<char>) -> Seq<char> {
    "Unknown field in --sort: '"@ + field + "'"@
}

/// What a `--sort` expression asks: the column to order by and whether to order descending.
#[derive(Clone, Copy, Debug)]
pub struct SortPlan {
    pub field: FieldDef,
    pub descending: bool,
}

/// Reads a `field` (ascending) or `-field` (descending) expression, or the message that
/// rejects an unknown column.
pub fn plan_sort(expr: &str) -> (r: Result<SortPlan, String>)
    ensures
        r matches Ok(p) ==> lookup_field(sort_spec(expr@).0) == Some(p.field.field)
            && p.descending == sort_spec(expr@).1,
        r matches Err(m) ==> lookup_field(sort_spec(expr@).0) is None
            && m@ == unknown_sort_field_message(sort_spec(expr@).0),
{
    let e = chars_of(expr);
    let (name, desc) = if e.len() > 0 && e[0] == '-' {
        (slice_chars(&e, 1, e.len()), true)
    } else {
        (slice_chars(&e, 0, e.len()), false)
    };
    assert(name@ =~= sort_spec(expr@).0);
    let name_s = string_of(&name);
    match find(name_s.as_str()) {
        Some(def) => Ok(SortPlan { field: def, descending: desc }),
        None => Err(concat3("Unknown field in --sort: '", name_s.as_str(), "'")),
    }
}

/// How many points remain after `--limit`: all of them without a limit, else at most `limit`.
pub open spec fn limited_len(len: nat, limit: Option<usize>) -> nat {
    match limit {
        Some(n) => if n < len { n as nat } else { len },
        None => len,
    }
}

/// The number of points that `--limit` keeps out of `len`.
pub fn limit_count(len: usize, limit: Option<usize>) -> (n: usize)
    ensures
        n as nat == limited_len(len as nat, limit),
{
    match limit {
        Some(k) => if k < len { k } else { len },
        None => len,
    }
}

} // verus!
