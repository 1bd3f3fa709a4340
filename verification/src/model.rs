//! The resolver's view of a parsed `SELECT` statement, and the records the
//! resolution pass produces from it.
//!
//! The statement model holds, as plain strings, exactly what resolution
//! reads from the abstract syntax tree: the `FROM` clause's table references
//! and the projection list's column expressions. Syntactic shapes the
//! resolver does not handle are kept as explicit `Other` variants, so that
//! every unsupported form fails through the same error path.

use vstd::prelude::*;

verus! {

/// Spec-level form of [`FromItem`].
pub enum FromItemV {
    Table { name: Seq<Seq<char>>, alias: Option<Seq<char>> },
    Other,
}

/// One item of a `FROM` clause.
#[derive(Debug, Clone)]
pub enum FromItem {
    /// A plain table reference: the (possibly qualified) declared name, in
    /// order of its parts, and the alias if one was given.
    Table { name: Vec<String>, alias: Option<String> },
    /// Any other kind of `FROM` item (derived table, table function, ...);
    /// silently skipped by the registry builder.
    Other,
}

impl View for FromItem {
    type V = FromItemV;

    open spec fn view(&self) -> FromItemV {
        match self {
            FromItem::Table { name, alias } => FromItemV::Table {
                name: name.deep_view(),
                alias: alias.deep_view(),
            },
            FromItem::Other => FromItemV::Other,
        }
    }
}

impl DeepView for FromItem {
    type V = FromItemV;

    open spec fn deep_view(&self) -> FromItemV {
        self.view()
    }
}

/// Spec-level form of [`ColumnExpr`].
pub enum ColumnExprV {
    Name(Seq<char>),
    Qualified(Seq<Seq<char>>),
    Other,
}

/// One projected expression, reduced to the shapes resolution handles.
#[derive(Debug, Clone)]
pub enum ColumnExpr {
    /// A bare column identifier, e.g. `name`.
    Name(String),
    /// A qualified identifier, e.g. `t.col`, in order of its parts.
    Qualified(Vec<String>),
    /// Any other expression (arithmetic, function call, literal, subquery,
    /// ...); unsupported, and rejected during resolution.
    Other,
}

impl View for ColumnExpr {
    type V = ColumnExprV;

    open spec fn view(&self) -> ColumnExprV {
        match self {
            ColumnExpr::Name(s) => ColumnExprV::Name(s@),
            ColumnExpr::Qualified(parts) => ColumnExprV::Qualified(parts.deep_view()),
            ColumnExpr::Other => ColumnExprV::Other,
        }
    }
}

impl DeepView for ColumnExpr {
    type V = ColumnExprV;

    open spec fn deep_view(&self) -> ColumnExprV {
        self.view()
    }
}

/// Spec-level form of [`ProjItem`].
pub enum ProjItemV {
    Expr { expr: ColumnExprV, alias: Option<Seq<char>> },
    Other,
}

/// One item of a projection list.
#[derive(Debug, Clone)]
pub enum ProjItem {
    /// An expression, with its output alias if one was given (`expr AS alias`).
    Expr { expr: ColumnExpr, alias: Option<String> },
    /// Any other projection item (`*`, `t.*`, multi-alias forms);
    /// unsupported, and rejected during resolution.
    Other,
}

impl View for ProjItem {
    type V = ProjItemV;

    open spec fn view(&self) -> ProjItemV {
        match self {
            ProjItem::Expr { expr, alias } => ProjItemV::Expr {
                expr: expr@,
                alias: alias.deep_view(),
            },
            ProjItem::Other => ProjItemV::Other,
        }
    }
}

impl DeepView for ProjItem {
    type V = ProjItemV;

    open spec fn deep_view(&self) -> ProjItemV {
        self.view()
    }
}

/// Spec-level form of [`SelectQuery`].
pub struct SelectQueryV {
    pub from: Seq<FromItemV>,
    pub projection: Seq<ProjItemV>,
}

/// What resolution reads from one parsed `SELECT` statement.
#[derive(Debug, Clone)]
pub struct SelectQuery {
    /// The `FROM` clause, in declaration order.
    pub from: Vec<FromItem>,
    /// The projection list, in declaration order.
    pub projection: Vec<ProjItem>,
}

impl View for SelectQuery {
    type V = SelectQueryV;

    open spec fn view(&self) -> SelectQueryV {
        SelectQueryV { from: self.from.deep_view(), projection: self.projection.deep_view() }
    }
}

/// Spec-level form of [`StatementModel`].
pub enum StatementModelV {
    Select(SelectQueryV),
    Other,
}

/// What one parsed statement reduces to: the statement model of a query
/// whose body is a plain `SELECT`, or `Other` for every other statement or
/// body kind (non-query statements, set operations, nested query bodies).
#[derive(Debug, Clone)]
pub enum StatementModel {
    Select(SelectQuery),
    Other,
}

impl View for StatementModel {
    type V = StatementModelV;

    open spec fn view(&self) -> StatementModelV {
        match self {
            StatementModel::Select(q) => StatementModelV::Select(q@),
            StatementModel::Other => StatementModelV::Other,
        }
    }
}

impl DeepView for StatementModel {
    type V = StatementModelV;

    open spec fn deep_view(&self) -> StatementModelV {
        self.view()
    }
}

/// Spec-level form of [`TableEntry`].
pub struct TableEntryV {
    pub effective: Seq<char>,
    pub declared: Seq<char>,
}

/// One binding of the table registry: the name under which a table is
/// referenced elsewhere in the query (its alias if given, else its declared
/// unqualified name), paired with the declared name itself.
#[derive(Debug, Clone)]
pub struct TableEntry {
    pub effective: String,
    pub declared: String,
}

impl View for TableEntry {
    type V = TableEntryV;

    open spec fn view(&self) -> TableEntryV {
        TableEntryV { effective: self.effective@, declared: self.declared@ }
    }
}

impl DeepView for TableEntry {
    type V = TableEntryV;

    open spec fn deep_view(&self) -> TableEntryV {
        self.view()
    }
}

/// Spec-level form of [`FieldProvenance`].
pub struct FieldProvenanceV {
    pub table: Seq<char>,
    pub field: Seq<char>,
    pub alias: Option<Seq<char>>,
}

/// The resolved origin of one projected expression: the declared name of the
/// table it belongs to, the source column it names, and the output alias if
/// one was given.
#[derive(Debug, Clone)]
pub struct FieldProvenance {
    pub table: String,
    pub field: String,
    pub alias: Option<String>,
}

impl View for FieldProvenance {
    type V = FieldProvenanceV;

    open spec fn view(&self) -> FieldProvenanceV {
        FieldProvenanceV { table: self.table@, field: self.field@, alias: self.alias.deep_view() }
    }
}

impl DeepView for FieldProvenance {
    type V = FieldProvenanceV;

    open spec fn deep_view(&self) -> FieldProvenanceV {
        self.view()
    }
}

/// Spec-level form of [`FieldDescriptor`].
pub struct FieldDescriptorV {
    pub target_field_name: Seq<char>,
    pub schema_identifier: Seq<char>,
    pub column_identifier: Seq<char>,
}

/// One entry of the binding plan: the output field to fill, the schema
/// symbol of the table it comes from, and the column constant under which
/// that schema exposes the column's parser.
#[derive(Debug, Clone)]
pub struct FieldDescriptor {
    /// snake_case output field name (the alias if given, else the column).
    pub target_field_name: String,
    /// PascalCase table name followed by the `Schema` suffix.
    pub schema_identifier: String,
    /// SCREAMING_SNAKE_CASE source column name.
    pub column_identifier: String,
}

impl View for FieldDescriptor {
    type V = FieldDescriptorV;

    open spec fn view(&self) -> FieldDescriptorV {
        FieldDescriptorV {
            target_field_name: self.target_field_name@,
            schema_identifier: self.schema_identifier@,
            column_identifier: self.column_identifier@,
        }
    }
}

impl DeepView for FieldDescriptor {
    type V = FieldDescriptorV;

    open spec fn deep_view(&self) -> FieldDescriptorV {
        self.view()
    }
}

} // verus!
