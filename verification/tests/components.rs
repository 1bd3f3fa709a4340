//! The resolution passes exercised one component at a time, and the exact
//! case-conversion behaviour pinned by example.

use select_binding::model::ColumnExpr;
use select_binding::model::FieldProvenance;
use select_binding::model::FromItem;
use select_binding::model::ProjItem;
use select_binding::model::SelectQuery;
use select_binding::plan::assemble_plan;
use select_binding::plan::descriptor_for;
use select_binding::plan::emit;
use select_binding::registry::build_registry;
use select_binding::registry::first_declared;
use select_binding::registry::lookup;
use select_binding::resolve_query;

fn table(name: &[&str], alias: Option<&str>) -> FromItem {
    FromItem::Table {
        name: name.iter().map(|p| p.to_string()).collect(),
        alias: alias.map(|a| a.to_string()),
    }
}

#[test]
fn schema_and_column_identifiers_round_trip() {
    // Pins the case-conversion rule: underscores split words, no separators
    // survive, and the schema suffix is appended verbatim.
    let d = descriptor_for(&FieldProvenance {
        table: "order_items".to_string(),
        field: "unit_price".to_string(),
        alias: None,
    });
    assert_eq!(d.schema_identifier, "OrderItemsSchema");
    assert_eq!(d.column_identifier, "UNIT_PRICE");
    assert_eq!(d.target_field_name, "unit_price");
}

#[test]
fn column_alias_decides_target_field_name() {
    let d = descriptor_for(&FieldProvenance {
        table: "users".to_string(),
        field: "name".to_string(),
        alias: Some("FullName".to_string()),
    });
    assert_eq!(d.target_field_name, "full_name");
    assert_eq!(d.schema_identifier, "UsersSchema");
    assert_eq!(d.column_identifier, "NAME");
}

#[test]
fn registry_uses_alias_when_given_and_last_name_part_otherwise() {
    let entries = build_registry(&vec![
        table(&["warehouse", "users"], None),
        table(&["posts"], Some("p")),
        FromItem::Other,
    ]);
    assert_eq!(entries.len(), 2);
    assert_eq!(entries[0].effective, "users");
    assert_eq!(entries[0].declared, "users");
    assert_eq!(entries[1].effective, "p");
    assert_eq!(entries[1].declared, "posts");
}

#[test]
fn registry_lookup_takes_last_binding() {
    let entries = build_registry(&vec![
        table(&["a"], Some("x")),
        table(&["b"], Some("x")),
    ]);
    assert_eq!(lookup(&entries, &"x".to_string()), Some("b".to_string()));
    assert_eq!(lookup(&entries, &"a".to_string()), None);
    // The shadowed binding of `a` under `x` is not a registry value any
    // more, so the bare-identifier pick falls to `b`.
    assert_eq!(first_declared(&entries), Some("b".to_string()));
}

#[test]
fn first_declared_picks_earliest_unshadowed_binding() {
    let entries = build_registry(&vec![
        table(&["a"], Some("x")),
        table(&["b"], None),
        table(&["c"], Some("x")),
    ]);
    // `a`'s binding of `x` is re-bound by `c`, so the earliest surviving
    // binding is `b`'s.
    assert_eq!(first_declared(&entries), Some("b".to_string()));
}

#[test]
fn empty_registry_has_no_first_table() {
    let entries = build_registry(&vec![FromItem::Other]);
    assert!(entries.is_empty());
    assert_eq!(first_declared(&entries), None);
}

#[test]
fn plan_keeps_projection_order() {
    let plan = assemble_plan(&vec![
        FieldProvenance {
            table: "users".to_string(),
            field: "id".to_string(),
            alias: None,
        },
        FieldProvenance {
            table: "posts".to_string(),
            field: "title".to_string(),
            alias: Some("headline".to_string()),
        },
    ]);
    assert_eq!(plan.len(), 2);
    assert_eq!(plan[0].target_field_name, "id");
    assert_eq!(plan[1].target_field_name, "headline");
    assert_eq!(plan[1].schema_identifier, "PostsSchema");
    assert_eq!(plan[1].column_identifier, "TITLE");
}

#[test]
fn emit_renders_plan_order_and_wraps_in_ok() {
    let plan = assemble_plan(&vec![FieldProvenance {
        table: "users".to_string(),
        field: "id".to_string(),
        alias: None,
    }]);
    let out = emit(&plan, "Row");
    assert_eq!(out, "Ok(Row { id: UsersSchema::ID::parse()?, })");
}

#[test]
fn emit_of_empty_plan_is_bare_construction() {
    let out = emit(&Vec::new(), "Row");
    assert_eq!(out, "Ok(Row { })");
}

#[test]
fn resolve_query_on_a_handwritten_model() {
    let q = SelectQuery {
        from: vec![table(&["users"], Some("u"))],
        projection: vec![
            ProjItem::Expr {
                expr: ColumnExpr::Qualified(vec!["u".to_string(), "id".to_string()]),
                alias: None,
            },
            ProjItem::Expr {
                expr: ColumnExpr::Name("name".to_string()),
                alias: Some("who".to_string()),
            },
        ],
    };
    let out = resolve_query(&q, "Row").unwrap();
    assert_eq!(
        out,
        "Ok(Row { id: UsersSchema::ID::parse()?, who: UsersSchema::NAME::parse()?, })"
    );
}

#[test]
fn empty_qualified_reference_is_rejected_as_expression_shape() {
    let q = SelectQuery {
        from: vec![table(&["users"], None)],
        projection: vec![ProjItem::Expr {
            expr: ColumnExpr::Qualified(Vec::new()),
            alias: None,
        }],
    };
    let err = resolve_query(&q, "Row").unwrap_err();
    assert!(matches!(
        err,
        select_binding::error::SelectError::UnsupportedExpressionShape
    ));
}
