use vstd::prelude::*;
use vstd::string::StringExecFns;
use crate::query::fields::{find, field_name, lookup_field, Field, FieldDef};

verus! {

/// The columns that the names ask for, in order; names of no column are skipped.
pub open spec fn selected_fields(names: Seq<Seq<char>>) -> Seq<Field>
    decreases names.len(),
{
    if names.len() == 0 {
        seq![]
    } else {
        selected_fields(names.drop_last()) + match lookup_field(names.last()) {
            Some(f) => seq![f],
            None => seq![],
        }
    }
}

/// Resolves the `--fields` names to columns, in order, silently skipping unknown names, and
/// gives the header row: the names of the columns kept.
pub fn select_columns(field_names: &Vec<String>) -> (r: (Vec<FieldDef>, Vec<String>))
    ensures
        r.0@.map_values(|d: FieldDef| d.field) == selected_fields(
            field_names@.map_values(|s: String| s@),
        ),
        r.1@.len() == r.0@.len(),
        forall|i: int| 0 <= i < r.1@.len() ==> (#[trigger] r.1@[i])@ == field_name(r.0@[i].field),
{
    let ghost ns = field_names@.map_values(|s: String| s@);
    let mut defs: Vec<FieldDef> = Vec::new();
    let mut header: Vec<String> = Vec::new();
    let mut i: usize = 0;
    while i < field_names.len()
        invariant
            i <= field_names.len(),
            ns == field_names@.map_values(|s: String| s@),
            defs@.map_values(|d: FieldDef| d.field) == selected_fields(ns.take(i as int)),
            header@.len() == defs@.len(),
            forall|j: int|
                0 <= j < header@.len() ==> (#[trigger] header@[j])@ == field_name(defs@[j].field),
        decreases field_names.len() - i,
    {
        assert(ns.take(i + 1).drop_last() =~= ns.take(i as int));
        assert(ns.take(i + 1).last() == field_names@[i as int]@);
        match find(field_names[i].as_str()) {
            Some(d) => {
                let ghost before = defs@.map_values(|d: FieldDef| d.field);
                defs.push(d);
                header.push(String::from_str(d.name));
                assert(defs@.map_values(|d: FieldDef| d.field) =~= before.push(d.field));
            },
            None => {},
        }
        i = i + 1;
    }
    assert(ns.take(field_names.len() as int) =~= ns);
    (defs, header)
}

} // verus!
