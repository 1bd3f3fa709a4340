//! Build-time resolution of a single SQL `SELECT` statement into a binding
//! plan: for each projected column, the table it comes from, the output field
//! name, and the schema/column identifiers used to look up its parser.

use vstd::prelude::*;

pub mod ast;
pub mod casing;
pub mod error;
pub mod model;
pub mod plan;
pub mod registry;
pub mod resolve;

use crate::error::SelectError;
use crate::error::SelectErrorV;
use crate::model::SelectQuery;
use crate::model::SelectQueryV;
use crate::plan::assemble_plan;
use crate::plan::emit;
use crate::plan::emitted_of;
use crate::plan::plan_of;
use crate::registry::build_registry;
use crate::registry::registry_of;
use crate::resolve::resolve_items_of;
use crate::resolve::resolve_projection;

verus! {

/// The SQL dialect selector threaded through the entry point. The grammar
/// itself is the outside parser's; the engine is currently configured for
/// the MySQL dialect, the one its macro surface fixes.
#[derive(Clone, Copy, Debug, PartialEq, Eq, Structural)]
pub enum SqlDialect {
    MySql,
}

/// The output of resolving one statement model against a target type: the
/// emitted construction fragment, or the first error met, with the registry
/// built from the `FROM` clause and the projection resolved in listed order.
pub open spec fn resolve_query_of(q: SelectQueryV, into_type: Seq<char>) -> Result<
    Seq<char>,
    SelectErrorV,
> {
    match resolve_items_of(registry_of(q.from), q.projection) {
        Ok(ps) => Ok(emitted_of(plan_of(ps), into_type)),
        Err(e) => Err(e),
    }
}

/// Resolves a statement model into the code fragment constructing
/// `into_type`, or the first error met.
pub fn resolve_query(q: &SelectQuery, into_type: &str) -> (r: Result<String, SelectError>)
    ensures
        match r {
            Ok(s) => resolve_query_of(q@, into_type@) == Ok::<_, SelectErrorV>(s@),
            Err(e) => resolve_query_of(q@, into_type@) == Err::<Seq<char>, _>(e@),
        },
{
    let entries = build_registry(&q.from);
    let provs = match resolve_projection(&entries, &q.projection) {
        Ok(p) => p,
        Err(e) => {
            return Err(e);
        },
    };
    let plan = assemble_plan(&provs);
    Ok(emit(&plan, into_type))
}

/// The output of the whole engine on one query text: the parse stage's
/// outcome (per [`ast::parse_outcome_of`]) resolved against the target
/// type. A text that does not parse gives a syntax error carrying the
/// parser's message; anything other than exactly one plain `SELECT` gives
/// the statement-shape error; otherwise the select model's resolution
/// decides.
pub open spec fn select_outcome_of(
    dialect: SqlDialect,
    sql: Seq<char>,
    into_type: Seq<char>,
) -> Result<Seq<char>, SelectErrorV> {
    match ast::parse_outcome_of(dialect, sql) {
        Ok(q) => resolve_query_of(q, into_type),
        Err(e) => Err(e),
    }
}

/// Resolves one SQL `SELECT` statement, under the selected dialect, into
/// the code fragment constructing `into_type`: the query is parsed, its
/// `FROM` clause is turned into the table registry, each projected column
/// is attributed to its table, and the binding plan is emitted.
pub fn parse_select(dialect: SqlDialect, query: &str, into_type: &str) -> (r: Result<
    String,
    SelectError,
>)
    ensures
        match r {
            Ok(s) => select_outcome_of(dialect, query@, into_type@) == Ok::<_, SelectErrorV>(s@),
            Err(e) => select_outcome_of(dialect, query@, into_type@) == Err::<Seq<char>, _>(e@),
        },
{
    let q = match ast::parse_query(dialect, query) {
        Ok(q) => q,
        Err(e) => {
            return Err(e);
        },
    };
    resolve_query(&q, into_type)
}

/// Resolution is deterministic: one query text, dialect and target type
/// determine one output, so resolving the same query twice produces
/// byte-identical results.
pub proof fn lemma_resolution_deterministic(
    dialect: SqlDialect,
    sql: Seq<char>,
    into_type: Seq<char>,
    r1: Result<Seq<char>, SelectErrorV>,
    r2: Result<Seq<char>, SelectErrorV>,
)
    requires
        r1 == select_outcome_of(dialect, sql, into_type),
        r2 == select_outcome_of(dialect, sql, into_type),
    ensures
        r1 == r2,
{
}

} // verus!
