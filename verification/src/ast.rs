//! The bridge from `sqlparser`'s abstract syntax tree to the resolver's
//! statement model.
//!
//! Parsing is delegated to `sqlparser`; the parse of a query text under a
//! given dialect is a pure function of the text, so its reduced outcome is
//! given a name, [`parsed_select_of`], that the parse stage's contracts are
//! stated over: each parsed statement reduces to the select model of its
//! `FROM` clause and projection list, or to `Other` for every statement or
//! body kind the resolver does not handle. The reduction wrappers below only
//! tell the tree's variants apart and move their fields out as plain
//! strings; everything downstream of the model is verified.

use crate::error::SelectError;
use crate::error::SelectErrorV;
use crate::model::ColumnExpr;
use crate::model::FromItem;
use crate::model::ProjItem;
use crate::model::SelectQuery;
use crate::model::SelectQueryV;
use crate::model::StatementModel;
use crate::model::StatementModelV;
use crate::SqlDialect;
use vstd::prelude::*;

verus! {

#[verifier::external_type_specification]
#[verifier::external_body]
pub struct ExStatement(sqlparser::ast::Statement);

#[verifier::external_type_specification]
#[verifier::external_body]
pub struct ExSelect(sqlparser::ast::Select);

#[verifier::external_type_specification]
#[verifier::external_body]
pub struct ExTableFactor(sqlparser::ast::TableFactor);

#[verifier::external_type_specification]
#[verifier::external_body]
pub struct ExSelectItem(sqlparser::ast::SelectItem);

#[verifier::external_type_specification]
#[verifier::external_body]
pub struct ExExpr(sqlparser::ast::Expr);

/// The reduced outcome of parsing one query text under one dialect: the
/// models of the parsed statements in order, or the parser's diagnostic
/// message. The parse is a function of the dialect and the characters
/// alone; the exact grammar is the outside parser's.
pub uninterp spec fn parsed_select_of(dialect: SqlDialect, sql: Seq<char>) -> Result<
    Seq<StatementModelV>,
    Seq<char>,
>;

/// Relies on `sqlparser::parser::Parser::parse_sql`: the statements parsed
/// from the text under the selected dialect — a function of its arguments
/// alone — each reduced to its statement model, or the parser's error
/// message.
#[verifier::external_body]
fn parse_reduced(dialect: SqlDialect, sql: &str) -> (r: Result<Vec<StatementModel>, String>)
    ensures
        (match r {
            Ok(stmts) => parsed_select_of(dialect, sql@) == Ok::<_, Seq<char>>(stmts.deep_view()),
            Err(m) => parsed_select_of(dialect, sql@) == Err::<Seq<StatementModelV>, _>(m@),
        }),
{
    let parsed = match dialect {
        SqlDialect::MySql => sqlparser::parser::Parser::parse_sql(
            &sqlparser::dialect::MySqlDialect {},
            sql,
        ),
    };
    match parsed {
        Ok(stmts) => Ok(stmts.into_iter().map(reduce_statement).collect()),
        Err(e) => Err(e.to_string()),
    }
}

/// Relies on `sqlparser::ast::Statement` and `SetExpr`: a query statement
/// whose body is a plain `SELECT` carries its select node; every other
/// statement or body kind (non-query statements, set operations, values,
/// nested query bodies) reduces to `Other`.
#[verifier::external_body]
fn reduce_statement(stmt: sqlparser::ast::Statement) -> (r: StatementModel) {
    match stmt {
        sqlparser::ast::Statement::Query(q) => match *q.body {
            sqlparser::ast::SetExpr::Select(s) => StatementModel::Select(reduce_select(*s)),
            _ => StatementModel::Other,
        },
        _ => StatementModel::Other,
    }
}

/// Relies on `sqlparser::ast::Select`: its `from` field holds the `FROM`
/// clause — each chain contributing its base relation and then every join's
/// relation, in order, as independent entries — and its `projection` field
/// holds the projection list.
#[verifier::external_body]
fn reduce_select(s: sqlparser::ast::Select) -> (r: SelectQuery) {
    let mut from: Vec<FromItem> = Vec::new();
    for twj in &s.from {
        from.push(reduce_factor(&twj.relation));
        for j in &twj.joins {
            from.push(reduce_factor(&j.relation));
        }
    }
    SelectQuery { from, projection: s.projection.iter().map(reduce_item).collect() }
}

/// Relies on `sqlparser::ast::TableFactor`: a plain table reference whose
/// name parts are all plain identifiers carries the part values and the
/// alias value; any other relation kind — or a name with a dialect-specific
/// function part — reduces to `Other`, which the registry builder skips.
#[verifier::external_body]
fn reduce_factor(f: &sqlparser::ast::TableFactor) -> (r: FromItem) {
    match f {
        sqlparser::ast::TableFactor::Table { name, alias, .. } => {
            let parts: Option<Vec<String>> = name.0.iter().map(
                |p| p.as_ident().map(|i| i.value.clone()),
            ).collect();
            match parts {
                Some(name) => FromItem::Table {
                    name,
                    alias: alias.as_ref().map(|a| a.name.value.clone()),
                },
                None => FromItem::Other,
            }
        },
        _ => FromItem::Other,
    }
}

/// Relies on `sqlparser::ast::SelectItem`: an unnamed expression or an
/// aliased expression carries its expression (and alias value); wildcard
/// and multi-alias items reduce to `Other`.
#[verifier::external_body]
fn reduce_item(item: &sqlparser::ast::SelectItem) -> (r: ProjItem) {
    match item {
        sqlparser::ast::SelectItem::UnnamedExpr(e) => ProjItem::Expr {
            expr: reduce_expr(e),
            alias: None,
        },
        sqlparser::ast::SelectItem::ExprWithAlias { expr, alias } => ProjItem::Expr {
            expr: reduce_expr(expr),
            alias: Some(alias.value.clone()),
        },
        _ => ProjItem::Other,
    }
}

/// Relies on `sqlparser::ast::Expr`: a bare identifier carries its value, a
/// compound identifier the values of its parts in order; every other
/// expression kind reduces to `Other`.
#[verifier::external_body]
fn reduce_expr(e: &sqlparser::ast::Expr) -> (r: ColumnExpr) {
    match e {
        sqlparser::ast::Expr::Identifier(i) => ColumnExpr::Name(i.value.clone()),
        sqlparser::ast::Expr::CompoundIdentifier(ids) => ColumnExpr::Qualified(
            ids.iter().map(|i| i.value.clone()).collect(),
        ),
        _ => ColumnExpr::Other,
    }
}

/// The outcome of the parse stage on one query text: the select model when
/// the text parses to exactly one query statement whose body is a plain
/// `SELECT`; a syntax error carrying the parser's message when it does not
/// parse; the statement-shape error for everything else.
pub open spec fn parse_outcome_of(dialect: SqlDialect, sql: Seq<char>) -> Result<
    SelectQueryV,
    SelectErrorV,
> {
    match parsed_select_of(dialect, sql) {
        Ok(stmts) => if stmts.len() == 1 && stmts[0] is Select {
            Ok(stmts[0]->Select_0)
        } else {
            Err(SelectErrorV::UnsupportedStatementShape)
        },
        Err(m) => Err(SelectErrorV::Syntax(m)),
    }
}

/// Parses the query text under the selected dialect and reduces it to the
/// statement model of its single plain `SELECT`, per [`parse_outcome_of`].
pub fn parse_query(dialect: SqlDialect, query: &str) -> (r: Result<SelectQuery, SelectError>)
    ensures
        match r {
            Ok(q) => parse_outcome_of(dialect, query@) == Ok::<_, SelectErrorV>(q@),
            Err(e) => parse_outcome_of(dialect, query@) == Err::<SelectQueryV, _>(e@),
        },
{
    let mut stmts = match parse_reduced(dialect, query) {
        Ok(s) => s,
        Err(m) => {
            return Err(SelectError::Syntax(m));
        },
    };
    if stmts.len() != 1 {
        return Err(SelectError::UnsupportedStatementShape);
    }
    let ghost pre = stmts@;
    let ghost ms = stmts.deep_view();
    proof {
        assert(ms.len() == 1);
        assert(ms[0] == pre[0].deep_view());
    }
    match stmts.pop() {
        Some(StatementModel::Select(q)) => {
            proof {
                assert(pre[0] == StatementModel::Select(q));
                assert(ms[0] == StatementModelV::Select(q@));
            }
            Ok(q)
        },
        Some(StatementModel::Other) => {
            proof {
                assert(ms[0] == StatementModelV::Other);
            }
            Err(SelectError::UnsupportedStatementShape)
        },
        None => {
            proof {
                assert(false);
            }
            Err(SelectError::UnsupportedStatementShape)
        },
    }
}

} // verus!
