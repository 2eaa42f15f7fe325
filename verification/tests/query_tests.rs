use weatheroz::query::aggregate::{plan_aggregate, AggFunc};
use weatheroz::query::field_select::select_columns;
use weatheroz::query::fields::{find, names, Field, NumericKind};
use weatheroz::query::predicate::{compare_text, parse_expr, plan_where, CompareOp};
use weatheroz::query::sort::{limit_count, plan_sort};
use weatheroz::query::time_filter::{filter_by_hour, hour_of};

#[test]
fn finds_known_field() {
    assert!(find("temp").is_some());
    assert!(find("nonexistent").is_none());
}

#[test]
fn rejects_unknown_field() {
    assert!(plan_where("bogus>1").is_err());
}

#[test]
fn filters_hours_in_range() {
    let times = vec![
        "2026-05-19T21:00".to_string(),
        "2026-05-19T22:00".to_string(),
        "2026-05-19T23:00".to_string(),
        "2026-05-20T00:00".to_string(),
    ];
    let kept = filter_by_hour(&times, Some(22), Some(24));
    assert_eq!(kept.len(), 2);
    assert_eq!(times[kept[0]], "2026-05-19T22:00");
    assert_eq!(times[kept[1]], "2026-05-19T23:00");
}

#[test]
fn no_hour_bounds_keep_every_point() {
    let times = vec!["garbage".to_string(), "2026-05-19T05:00".to_string()];
    assert_eq!(filter_by_hour(&times, None, None), vec![0, 1]);
}

#[test]
fn a_stamp_without_an_hour_is_dropped_by_a_window() {
    let times = vec!["2026-05-19".to_string(), "2026-05-19T05:00".to_string()];
    assert_eq!(filter_by_hour(&times, Some(0), None), vec![1]);
    assert_eq!(hour_of("2026-05-19T05:00"), Some(5));
    assert_eq!(hour_of("2026-05-19"), None);
}

#[test]
fn field_names_are_listed_in_order() {
    let all = names();
    assert_eq!(all.len(), 14);
    assert_eq!(all[0], "time");
    assert_eq!(all[1], "temp");
    assert_eq!(all[13], "soil_moisture");
    assert_eq!(find("time").unwrap().field.numeric(), NumericKind::Never);
    assert_eq!(find("uv_index").unwrap().field.numeric(), NumericKind::WhenPresent);
}

#[test]
fn where_expressions_split_at_the_first_operator_in_order() {
    let (f, op, v) = parse_expr("temp>=20").unwrap();
    assert_eq!((f.as_str(), op, v.as_str()), ("temp", CompareOp::Ge, "20"));
    let (f, op, v) = parse_expr(" humidity <= 50 ").unwrap();
    assert_eq!((f.as_str(), op, v.as_str()), ("humidity", CompareOp::Le, "50"));
    let (_, op, _) = parse_expr("time==2026").unwrap();
    assert_eq!(op, CompareOp::EqEq);
    let (_, op, _) = parse_expr("time=2026").unwrap();
    assert_eq!(op, CompareOp::Eq);
}

#[test]
fn malformed_where_expressions_are_reported() {
    assert_eq!(
        parse_expr("temp").unwrap_err(),
        "Invalid --where expression 'temp', expected '<field> <op> <value>' (op: = != > < >= <=)"
    );
    assert!(parse_expr(">5").is_err());
    assert_eq!(
        plan_where("bogus>1").unwrap_err(),
        "Unknown field in --where: 'bogus'"
    );
    let plan = plan_where("temp>20").unwrap();
    assert_eq!(plan.field.field, Field::Temp);
    assert_eq!(plan.op, CompareOp::Gt);
    assert_eq!(plan.value, "20");
}

#[test]
fn text_columns_compare_only_for_equality() {
    assert!(compare_text(CompareOp::Eq, "a", "a"));
    assert!(compare_text(CompareOp::Ne, "a", "b"));
    assert!(!compare_text(CompareOp::Gt, "b", "a"));
}

#[test]
fn sort_expressions_read_direction() {
    let p = plan_sort("-temp").unwrap();
    assert!(p.descending);
    assert_eq!(p.field.field, Field::Temp);
    let p = plan_sort("humidity").unwrap();
    assert!(!p.descending);
    assert_eq!(plan_sort("-bogus").unwrap_err(), "Unknown field in --sort: 'bogus'");
    assert_eq!(limit_count(3, Some(2)), 2);
    assert_eq!(limit_count(3, Some(5)), 3);
    assert_eq!(limit_count(3, None), 3);
}

#[test]
fn aggregate_expressions_name_field_and_function() {
    let p = plan_aggregate("temp:avg").unwrap();
    assert_eq!(p.label, "temp:avg");
    assert_eq!(p.func, AggFunc::Avg);
    assert_eq!(
        plan_aggregate("temp").unwrap_err(),
        "Invalid --aggregate expression 'temp', expected 'field:func'"
    );
    assert_eq!(
        plan_aggregate("bogus:avg").unwrap_err(),
        "Unknown field in --aggregate: 'bogus'"
    );
    assert_eq!(
        plan_aggregate("temp:median").unwrap_err(),
        "Unknown aggregate function: 'median'"
    );
}

#[test]
fn selects_requested_column_headers() {
    let (defs, header) = select_columns(&vec![
        "time".to_string(),
        "bogus".to_string(),
        "temp".to_string(),
        "humidity".to_string(),
    ]);
    assert_eq!(header, vec!["time", "temp", "humidity"]);
    assert_eq!(defs.len(), 3);
    assert_eq!(defs[2].field, Field::Humidity);
}
