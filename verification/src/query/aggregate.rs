use vstd::prelude::*;
use crate::query::fields::{find, field_name, lemma_field_name_finds_field, lookup_field, FieldDef};
use crate::text::{
    after_char, before_char, chars_of, concat3, index_of, index_of_char, lemma_index_of_first,
    slice_chars, string_of,
};
use vstd::string::StringExecFns;

verus! {

/// An aggregate function of `--aggregate`.
#[derive(Clone, Copy, Debug, PartialEq, Eq, Structural)]
pub enum AggFunc {
    Min,
    Max,
    Sum,
    Avg,
    Count,
}

/// The aggregate function written `name`, if any.
pub open spec fn agg_func_named(name: Seq<char>) -> Option<AggFunc> {
    if name == "min"@ {
        Some(AggFunc::Min)
    } else if name == "max"@ {
        Some(AggFunc::Max)
    } else if name == "sum"@ {
        Some(AggFunc::Sum)
    } else if name == "avg"@ {
        Some(AggFunc::Avg)
    } else if name == "count"@ {
        Some(AggFunc::Count)
    } else {
        None
    }
}

/// The name under which each aggregate function is asked for on the command line.
pub open spec fn agg_text(a: AggFunc) -> Seq<char> {
    match a {
        AggFunc::Min => "min"@,
        AggFunc::Max => "max"@,
        AggFunc::Sum => "sum"@,
        AggFunc::Avg => "avg"@,
        AggFunc::Count => "count"@,
    }
}

/// `field:func` asks for exactly that column and that function: every column's name, a `:`
/// and any function's name read back as that column and that function, so `min` gives the
/// minimum, `max` the maximum, and so on, and different names give different functions.
pub proof fn law_aggregate_reads_back(f: Field, a: AggFunc, b: AggFunc)
    ensures
        aggregate_outcome(field_name(f) + ":"@ + agg_text(a)) == Ok::<(Field, AggFunc), Seq<char>>(
            (f, a),
        ),
        a != b ==> agg_text(a) != agg_text(b),
{
    reveal_strlit(":");
    reveal_strlit("min");
    reveal_strlit("max");
    reveal_strlit("sum");
    reveal_strlit("avg");
    reveal_strlit("count");
    lemma_field_name_finds_field(f);
    let name = field_name(f);
    let e = name + ":"@ + agg_text(a);
    assert(e[name.len() as int] == ':');
    assert forall|j: int| 0 <= j < name.len() implies e[j] != ':' by {
        assert(e[j] == name[j]);
    }
    lemma_index_of_first(e, ':', name.len() as int);
    assert(e.take(name.len() as int) =~= name);
    assert(e.skip(name.len() as int + 1) =~= agg_text(a));
    assert("min"@.len() == 3 && "min"@[0] == 'm' && "min"@[1] == 'i');
    assert("max"@.len() == 3 && "max"@[0] == 'm' && "max"@[1] == 'a');
    assert("sum"@.len() == 3 && "sum"@[0] == 's' && "sum"@[1] == 'u');
    assert("avg"@.len() == 3 && "avg"@[0] == 'a' && "avg"@[1] == 'v');
    assert("count"@.len() == 5 && "count"@[0] == 'c' && "count"@[1] == 'o');
    assert(agg_func_named(agg_text(a)) == Some(a));
    if a != b {
        assert(agg_text(a)[0] != agg_text(b)[0] || agg_text(a)[1] != agg_text(b)[1]);
    }
}

/// What an `--aggregate` expression asks: the column, the function, and the label under which
/// the result is shown (`field:func`).
#[derive(Clone, Debug)]
pub struct AggregatePlan {
    pub field: FieldDef,
    pub func: AggFunc,
    pub label: String,
}

/// The message for an expression without a `:`.
pub open spec fn invalid_aggregate_message(expr: Seq<char>) -> Seq<char> {
    "Invalid --aggregate expression '"@ + expr + "', expected 'field:func'"@
}

/// The message for an unknown column.
pub open spec fn unknown_aggregate_field_message(field: Seq<char>) -> Seq<char> {
    "Unknown field in --aggregate: '"@ + field + "'"@
}

/// The message for an unknown function.
pub open spec fn unknown_aggregate_func_message(func: Seq<char>) -> Seq<char> {
    "Unknown aggregate function: '"@ + func + "'"@
}

/// The outcome of reading an `--aggregate` expression: it splits at its first `:` into a
/// column name and a function name; the column is checked before the function.
pub open spec fn aggregate_outcome(expr: Seq<char>) -> Result<(Field, AggFunc), Seq<char>> {
    match index_of(expr, ':') {
        None => Err(invalid_aggregate_message(expr)),
        Some(i) => {
            let field = expr.take(i);
            let func = expr.skip(i + 1);
            match lookup_field(field) {
                None => Err(unknown_aggregate_field_message(field)),
                Some(f) => match agg_func_named(func) {
                    None => Err(unknown_aggregate_func_message(func)),
                    Some(a) => Ok((f, a)),
                },
            }
        },
    }
}

use crate::query::fields::Field;

/// Reads a single `field:func` aggregate such as `temp:avg`. The functions are min, max, avg,
/// sum and count; the label is the column name and the function name joined by `:`.
pub fn plan_aggregate(expr: &str) -> (r: Result<AggregatePlan, String>)
    ensures
        r matches Ok(p) ==> aggregate_outcome(expr@) == Ok::<(Field, AggFunc), Seq<char>>(
            (p.field.field, p.func),
        ) && p.label@ == field_name(p.field.field) + ":"@ + (match index_of(expr@, ':') {
            Some(i) => expr@.skip(i + 1),
            None => Seq::empty(),
        }),
        r matches Err(m) ==> aggregate_outcome(expr@) == Err::<(Field, AggFunc), Seq<char>>(m@),
{
    let e = chars_of(expr);
    let i = match index_of_char(&e, ':') {
        Some(i) => i,
        None => {
            return Err(concat3("Invalid --aggregate expression '", expr, "', expected 'field:func'"));
        },
    };
    let field_v = slice_chars(&e, 0, i);
    let func_v = slice_chars(&e, i + 1, e.len());
    assert(field_v@ =~= e@.take(i as int));
    assert(func_v@ =~= e@.skip(i + 1));
    let field = string_of(&field_v);
    let func = string_of(&func_v);
    let def = match find(field.as_str()) {
        Some(d) => d,
        None => {
            return Err(concat3("Unknown field in --aggregate: '", field.as_str(), "'"));
        },
    };
    let f = if crate::text::str_eq_chars("min", &func_v) {
        AggFunc::Min
    } else if crate::text::str_eq_chars("max", &func_v) {
        AggFunc::Max
    } else if crate::text::str_eq_chars("sum", &func_v) {
        AggFunc::Sum
    } else if crate::text::str_eq_chars("avg", &func_v) {
        AggFunc::Avg
    } else if crate::text::str_eq_chars("count", &func_v) {
        AggFunc::Count
    } else {
        return Err(concat3("Unknown aggregate function: '", func.as_str(), "'"));
    };
    let label = concat3(def.name, ":", func.as_str());
    Ok(AggregatePlan { field: def, func: f, label })
}

} // verus!
