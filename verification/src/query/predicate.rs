use vstd::prelude::*;
use crate::query::fields::{find, field_name, is_field_name, FieldDef};
use crate::text::{
    chars_of, concat3, find as find_seq, find_chars, slice_chars, string_of, trim, trim_chars,
};

verus! {

/// A comparison operator of a `--where` expression.
#[derive(Clone, Copy, Debug, PartialEq, Eq, Structural)]
pub enum CompareOp {
    Ge,
    Le,
    Ne,
    EqEq,
    Eq,
    Gt,
    Lt,
}

/// The operators in the order in which an expression is searched for them.
pub open spec fn op_seq() -> Seq<CompareOp> {
    seq![
        CompareOp::Ge,
        CompareOp::Le,
        CompareOp::Ne,
        CompareOp::EqEq,
        CompareOp::Eq,
        CompareOp::Gt,
        CompareOp::Lt,
    ]
}

/// How an operator is written.
pub open spec fn op_text(op: CompareOp) -> Seq<char> {
    match op {
        CompareOp::Ge => ">="@,
        CompareOp::Le => "<="@,
        CompareOp::Ne => "!="@,
        CompareOp::EqEq => "=="@,
        CompareOp::Eq => "="@,
        CompareOp::Gt => ">"@,
        CompareOp::Lt => "<"@,
    }
}

impl CompareOp {
    /// How this operator is written.
    pub fn text(&self) -> (s: &'static str)
        ensures
            s@ == op_text(*self),
    {
        match self {
            CompareOp::Ge => ">=",
            CompareOp::Le => "<=",
            CompareOp::Ne => "!=",
            CompareOp::EqEq => "==",
            CompareOp::Eq => "=",
            CompareOp::Gt => ">",
            CompareOp::Lt => "<",
        }
    }
}

/// Splitting `expr` at the first operator, in search order, that occurs in it: the trimmed
/// text before it, the operator and the trimmed text after it. There is no split when no
/// operator occurs, or when the first one found leaves either side empty.
pub open spec fn split_expr_from(expr: Seq<char>, k: int) -> Option<(Seq<char>, CompareOp, Seq<char>)>
    decreases 7 - k,
{
    if k < 0 || k >= 7 {
        None
    } else {
        let op = op_seq()[k];
        match find_seq(expr, op_text(op)) {
            Some(idx) => {
                let field = trim(expr.take(idx));
                let value = trim(expr.skip(idx + op_text(op).len()));
                if field.len() == 0 || value.len() == 0 {
                    None
                } else {
                    Some((field, op, value))
                }
            },
            None => split_expr_from(expr, k + 1),
        }
    }
}

/// The `field <op> value` split of a `--where` expression.
pub open spec fn split_expr(expr: Seq<char>) -> Option<(Seq<char>, CompareOp, Seq<char>)> {
    split_expr_from(expr, 0)
}

/// The message for a `--where` expression that does not split.
pub open spec fn invalid_where_message(expr: Seq<char>) -> Seq<char> {
    "Invalid --where expression '"@ + expr
        + "', expected '<field> <op> <value>' (op: = != > < >= <=)"@
}

/// Splits a `field <op> value` expression such as `temp>20` or `humidity <= 50`.
pub fn parse_expr(expr: &str) -> (r: Result<(String, CompareOp, String), String>)
    ensures
        r matches Ok((f, op, v)) ==> split_expr(expr@) == Some((f@, op, v@)),
        r matches Err(m) ==> split_expr(expr@) is None && m@ == invalid_where_message(expr@),
{
    let e = chars_of(expr);
    let ops = vec![
        CompareOp::Ge,
        CompareOp::Le,
        CompareOp::Ne,
        CompareOp::EqEq,
        CompareOp::Eq,
        CompareOp::Gt,
        CompareOp::Lt,
    ];
    assert(ops@ =~= op_seq());
    let mut k: usize = 0;
    while k < ops.len()
        invariant
            k <= ops.len(),
            ops@ == op_seq(),
            e@ == expr@,
            split_expr(expr@) == split_expr_from(expr@, k as int),
        decreases ops.len() - k,
    {
        let op = ops[k];
        let text = chars_of(op.text());
        match find_chars(&e, &text) {
            Some(idx) => {
                proof {
                    crate::text::lemma_find_facts(e@, text@);
                }
                let left = slice_chars(&e, 0, idx);
                let right = slice_chars(&e, idx + text.len(), e.len());
                assert(left@ =~= e@.take(idx as int));
                assert(right@ =~= e@.skip(idx + text@.len()));
                let field = trim_chars(&left);
                let value = trim_chars(&right);
                if field.len() == 0 || value.len() == 0 {
                    return Err(concat3(
                        "Invalid --where expression '",
                        expr,
                        "', expected '<field> <op> <value>' (op: = != > < >= <=)",
                    ));
                }
                return Ok((string_of(&field), op, string_of(&value)));
            },
            None => {},
        }
        k = k + 1;
    }
    Err(concat3(
        "Invalid --where expression '",
        expr,
        "', expected '<field> <op> <value>' (op: = != > < >= <=)",
    ))
}

/// What a `--where` expression asks: which column, which comparison, and the text compared
/// against.
#[derive(Clone, Debug)]
pub struct WherePlan {
    pub field: FieldDef,
    pub op: CompareOp,
    pub value: String,
}

/// The message for an unknown column in a `--where` expression.
pub open spec fn unknown_where_field_message(field: Seq<char>) -> Seq<char> {
    "Unknown field in --where: '"@ + field + "'"@
}

/// Reads a `--where` expression into the column, operator and value it compares, or the
/// message that rejects it: first the expression must split, then the column must exist.
pub fn plan_where(expr: &str) -> (r: Result<WherePlan, String>)
    ensures
        r matches Ok(p) ==> split_expr(expr@) == Some((field_name(p.field.field), p.op, p.value@)),
        r matches Err(m) ==> match split_expr(expr@) {
            None => m@ == invalid_where_message(expr@),
            Some((f, _, _)) => !is_field_name(f) && m@ == unknown_where_field_message(f),
        },
{
    let (field, op, value) = parse_expr(expr)?;
    match find(field.as_str()) {
        Some(def) => Ok(WherePlan { field: def, op, value }),
        None => Err(concat3("Unknown field in --where: '", field.as_str(), "'")),
    }
}

/// How a column without a number compares its text with the expression's value: only
/// equality and inequality hold; every other operator rejects the point.
pub open spec fn text_compare(op: CompareOp, s: Seq<char>, value: Seq<char>) -> bool {
    match op {
        CompareOp::Eq | CompareOp::EqEq => s == value,
        CompareOp::Ne => s != value,
        _ => false,
    }
}

/// Compares the text `s` of a point's column with the expression's value.
pub fn compare_text(op: CompareOp, s: &str, value: &str) -> (b: bool)
    ensures
        b == text_compare(op, s@, value@),
{
    let sv = chars_of(s);
    let vv = chars_of(value);
    match op {
        CompareOp::Eq | CompareOp::EqEq => crate::text::eq_chars(&sv, &vv),
        CompareOp::Ne => !crate::text::eq_chars(&sv, &vv),
        _ => false,
    }
}

} // verus!
