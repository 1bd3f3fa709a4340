use vstd::prelude::*;

verus! {

/// Spec-level form of [`SelectError`], with messages as character sequences.
pub enum SelectErrorV {
    /// The query text failed to parse under the configured dialect; the
    /// payload is the parser's diagnostic message.
    Syntax(Seq<char>),
    /// Anything other than exactly one simple `SELECT` query.
    UnsupportedStatementShape,
    /// A projection item is not a bare or qualified column identifier.
    UnsupportedExpressionShape,
    /// A bare identifier was used but the `FROM` clause yielded no usable table.
    NoTablesInScope,
    /// A qualified identifier's qualifier matches no table or alias in scope;
    /// the payload is the unknown qualifier.
    UnknownTableQualifier(Seq<char>),
}

/// The ways a query can fail to resolve into a binding plan.
///
/// Every failure is terminal: either a complete, internally consistent
/// binding plan is emitted, or one of these errors is reported and nothing
/// is emitted.
#[derive(Debug, Clone)]
pub enum SelectError {
    /// The query text failed to parse under the configured dialect.
    Syntax(String),
    /// Anything other than exactly one simple `SELECT` query.
    UnsupportedStatementShape,
    /// A projection item is not a bare or qualified column identifier
    /// (wildcards, function calls, literals, and subqueries included).
    UnsupportedExpressionShape,
    /// A bare identifier was used but the `FROM` clause yielded no usable table.
    NoTablesInScope,
    /// A qualified identifier's qualifier matches no table or alias in scope.
    UnknownTableQualifier(String),
}

impl View for SelectError {
    type V = SelectErrorV;

    open spec fn view(&self) -> SelectErrorV {
        match self {
            SelectError::Syntax(m) => SelectErrorV::Syntax(m@),
            SelectError::UnsupportedStatementShape => SelectErrorV::UnsupportedStatementShape,
            SelectError::UnsupportedExpressionShape => SelectErrorV::UnsupportedExpressionShape,
            SelectError::NoTablesInScope => SelectErrorV::NoTablesInScope,
            SelectError::UnknownTableQualifier(q) => SelectErrorV::UnknownTableQualifier(q@),
        }
    }
}

/// The diagnostic message reported for each error.
pub open spec fn message_of(e: SelectErrorV) -> Seq<char> {
    match e {
        SelectErrorV::Syntax(m) => m,
        SelectErrorV::UnsupportedStatementShape => "Only a single select query is supported"@,
        SelectErrorV::UnsupportedExpressionShape => (
            "Only bare and qualified column identifiers are supported"@
        ),
        SelectErrorV::NoTablesInScope => (
            "Apparently there are no tables involved in this query"@
        ),
        SelectErrorV::UnknownTableQualifier(q) => (
            "No table \""@ + q + "\" found in this query"@
        ),
    }
}

impl SelectError {
    /// The human-readable diagnostic for this error, anchored by the caller
    /// at whatever source location is available.
    pub fn message(&self) -> (r: String)
        ensures
            r@ == message_of(self@),
    {
        match self {
            SelectError::Syntax(m) => m.clone(),
            SelectError::UnsupportedStatementShape => String::from_str(
                "Only a single select query is supported",
            ),
            SelectError::UnsupportedExpressionShape => String::from_str(
                "Only bare and qualified column identifiers are supported",
            ),
            SelectError::NoTablesInScope => String::from_str(
                "Apparently there are no tables involved in this query",
            ),
            SelectError::UnknownTableQualifier(q) => {
                let mut out = String::from_str("No table \"");
                out.append(q.as_str());
                out.append("\" found in this query");
                out
            },
        }
    }
}

} // verus!
