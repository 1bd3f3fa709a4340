//! One scenario per error, and the diagnostic messages.

use select_binding::error::SelectError;
use select_binding::parse_select;
use select_binding::SqlDialect;

#[test]
fn syntax_error_is_reported() {
    let err = parse_select(SqlDialect::MySql, "SELEC id FROM users", "Row").unwrap_err();
    match err {
        SelectError::Syntax(m) => assert!(!m.is_empty()),
        other => panic!("expected a syntax error, got {:?}", other),
    }
}

#[test]
fn non_query_statement_is_rejected() {
    let err = parse_select(SqlDialect::MySql, "INSERT INTO users (id) VALUES (1)", "Row").unwrap_err();
    assert!(matches!(err, SelectError::UnsupportedStatementShape));
}

#[test]
fn two_statements_are_rejected() {
    let err = parse_select(SqlDialect::MySql, "SELECT a FROM t; SELECT b FROM u", "Row").unwrap_err();
    assert!(matches!(err, SelectError::UnsupportedStatementShape));
}

#[test]
fn set_operation_is_rejected() {
    let err = parse_select(SqlDialect::MySql, "SELECT a FROM t UNION SELECT b FROM u", "Row").unwrap_err();
    assert!(matches!(err, SelectError::UnsupportedStatementShape));
}

#[test]
fn bare_identifier_without_tables_is_rejected() {
    let err = parse_select(SqlDialect::MySql, "SELECT x", "Row").unwrap_err();
    assert!(matches!(err, SelectError::NoTablesInScope));
}

#[test]
fn unknown_qualifier_is_rejected_and_named() {
    let err = parse_select(SqlDialect::MySql, "SELECT t.x FROM users u", "Row").unwrap_err();
    match err {
        SelectError::UnknownTableQualifier(q) => {
            assert_eq!(q, "t");
            assert_eq!(
                SelectError::UnknownTableQualifier(q).message(),
                "No table \"t\" found in this query"
            );
        }
        other => panic!("expected an unknown-qualifier error, got {:?}", other),
    }
}

#[test]
fn function_call_projection_is_rejected() {
    let err = parse_select(SqlDialect::MySql, "SELECT count(id) FROM users", "Row").unwrap_err();
    assert!(matches!(err, SelectError::UnsupportedExpressionShape));
}

#[test]
fn literal_projection_is_rejected() {
    let err = parse_select(SqlDialect::MySql, "SELECT 1 FROM users", "Row").unwrap_err();
    assert!(matches!(err, SelectError::UnsupportedExpressionShape));
}

#[test]
fn qualified_wildcard_is_rejected() {
    let err = parse_select(SqlDialect::MySql, "SELECT u.* FROM users u", "Row").unwrap_err();
    assert!(matches!(err, SelectError::UnsupportedExpressionShape));
}

#[test]
fn first_rejected_item_decides_the_error() {
    // The wildcard comes before the unknown qualifier, so the projection
    // shape error wins.
    let err = parse_select(SqlDialect::MySql, "SELECT *, t.x FROM users u", "Row").unwrap_err();
    assert!(matches!(err, SelectError::UnsupportedExpressionShape));
}

#[test]
fn statement_shape_message() {
    assert_eq!(
        SelectError::UnsupportedStatementShape.message(),
        "Only a single select query is supported"
    );
}

#[test]
fn no_tables_message() {
    assert_eq!(
        SelectError::NoTablesInScope.message(),
        "Apparently there are no tables involved in this query"
    );
}
