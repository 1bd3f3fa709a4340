//! End-to-end resolution scenarios through `parse_select`.

use select_binding::error::SelectError;
use select_binding::parse_select;
use select_binding::SqlDialect;

#[test]
fn single_table_two_columns_with_column_alias() {
    let out = parse_select(SqlDialect::MySql, "SELECT id, name AS full_name FROM users", "Row").unwrap();
    assert_eq!(
        out,
        "Ok(Row { id: UsersSchema::ID::parse()?, full_name: UsersSchema::NAME::parse()?, })"
    );
}

#[test]
fn two_tables_with_qualified_references() {
    let out = parse_select(SqlDialect::MySql, "SELECT u.id, p.title FROM users u, posts p", "Row").unwrap();
    assert_eq!(
        out,
        "Ok(Row { id: UsersSchema::ID::parse()?, title: PostsSchema::TITLE::parse()?, })"
    );
}

#[test]
fn wildcard_projection_is_rejected() {
    let err = parse_select(SqlDialect::MySql, "SELECT * FROM users", "Row").unwrap_err();
    assert!(matches!(err, SelectError::UnsupportedExpressionShape));
}

#[test]
fn bare_identifier_with_two_tables_picks_first_table() {
    // Documented limitation: a bare identifier is attributed to the first
    // declared table, deterministically, rather than searched for or
    // rejected as ambiguous.
    let out = parse_select(SqlDialect::MySql, "SELECT nope FROM users, posts", "Row").unwrap();
    assert_eq!(out, "Ok(Row { nope: UsersSchema::NOPE::parse()?, })");
}

#[test]
fn resolving_twice_is_byte_identical() {
    let query = "SELECT u.id, p.title, name AS who FROM users u, posts p";
    let first = parse_select(SqlDialect::MySql, query, "Row").unwrap();
    let second = parse_select(SqlDialect::MySql, query, "Row").unwrap();
    assert_eq!(first, second);
}

#[test]
fn joined_tables_contribute_to_the_registry() {
    let out = parse_select(
        SqlDialect::MySql,
        "SELECT u.id, p.title FROM users u JOIN posts p ON u.id = p.user_id",
        "Row",
    )
    .unwrap();
    assert_eq!(
        out,
        "Ok(Row { id: UsersSchema::ID::parse()?, title: PostsSchema::TITLE::parse()?, })"
    );
}

#[test]
fn bare_identifier_skips_a_shadowed_alias() {
    // With `a` and `b` both declared as `x`, the registry's only binding
    // for `x` is `b`; the bare identifier must be attributed to a table
    // that is still a registry value.
    let out = parse_select(SqlDialect::MySql, "SELECT id FROM a AS x, b AS x", "Row").unwrap();
    assert_eq!(out, "Ok(Row { id: BSchema::ID::parse()?, })");
}

#[test]
fn single_column_single_table() {
    let out = parse_select(SqlDialect::MySql, "SELECT id FROM users", "Row").unwrap();
    assert_eq!(out, "Ok(Row { id: UsersSchema::ID::parse()?, })");
}

#[test]
fn projection_order_is_kept() {
    let out = parse_select(SqlDialect::MySql, "SELECT b, a, c FROM t", "Row").unwrap();
    assert_eq!(
        out,
        "Ok(Row { b: TSchema::B::parse()?, a: TSchema::A::parse()?, c: TSchema::C::parse()?, })"
    );
}

#[test]
fn table_alias_keys_the_lookup() {
    let out = parse_select(SqlDialect::MySql, "SELECT u.id FROM users AS u", "Row").unwrap();
    assert_eq!(out, "Ok(Row { id: UsersSchema::ID::parse()?, })");
}

#[test]
fn qualified_table_name_uses_last_component() {
    let out = parse_select(SqlDialect::MySql, "SELECT id FROM warehouse.users", "Row").unwrap();
    assert_eq!(out, "Ok(Row { id: UsersSchema::ID::parse()?, })");
}

#[test]
fn three_part_column_reference_uses_first_and_last_parts() {
    let out = parse_select(SqlDialect::MySql, "SELECT a.b.c FROM x a", "Row").unwrap();
    assert_eq!(out, "Ok(Row { c: XSchema::C::parse()?, })");
}

#[test]
fn duplicate_effective_name_last_declaration_wins() {
    let out = parse_select(SqlDialect::MySql, "SELECT x.id FROM a AS x, b AS x", "Row").unwrap();
    assert_eq!(out, "Ok(Row { id: BSchema::ID::parse()?, })");
}

#[test]
fn target_type_name_is_spliced() {
    let out = parse_select(SqlDialect::MySql, "SELECT id FROM users", "UserRecord").unwrap();
    assert_eq!(out, "Ok(UserRecord { id: UsersSchema::ID::parse()?, })");
}
