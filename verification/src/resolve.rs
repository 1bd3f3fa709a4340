//! Field provenance resolution: attributing each projected expression to a
//! table in scope and a source column.
//!
//! A bare identifier is attributed to the registry's first binding still in
//! force (the earliest entry whose effective name is not re-bound later) —
//! only correct for single-table queries, and kept as a deterministic,
//! documented limitation rather than a multi-table column lookup. A
//! qualified identifier's qualifier must match a registry key. Every other
//! expression shape is rejected.

use crate::error::SelectError;
use crate::error::SelectErrorV;
use crate::model::ColumnExpr;
use crate::model::ColumnExprV;
use crate::model::FieldProvenance;
use crate::model::FieldProvenanceV;
use crate::model::FromItemV;
use crate::model::ProjItem;
use crate::model::ProjItemV;
use crate::model::TableEntry;
use crate::model::TableEntryV;
use crate::registry::entry_of;
use crate::registry::first_declared;
use crate::registry::first_declared_of;
use crate::registry::lemma_first_declared_some;
use crate::registry::lookup;
use crate::registry::lookup_of;
use crate::registry::registry_of;
use vstd::prelude::*;

verus! {

/// The provenance of one projected expression, or the error rejecting it.
pub open spec fn resolve_expr_of(
    entries: Seq<TableEntryV>,
    expr: ColumnExprV,
    alias: Option<Seq<char>>,
) -> Result<FieldProvenanceV, SelectErrorV> {
    match expr {
        ColumnExprV::Name(field) => match first_declared_of(entries) {
            Some(table) => Ok(FieldProvenanceV { table, field, alias }),
            None => Err(SelectErrorV::NoTablesInScope),
        },
        ColumnExprV::Qualified(parts) => if parts.len() == 0 {
            Err(SelectErrorV::UnsupportedExpressionShape)
        } else {
            match lookup_of(entries, parts[0]) {
                Some(table) => Ok(FieldProvenanceV { table, field: parts.last(), alias }),
                None => Err(SelectErrorV::UnknownTableQualifier(parts[0])),
            }
        },
        ColumnExprV::Other => Err(SelectErrorV::UnsupportedExpressionShape),
    }
}

/// The provenance of one projection item, or the error rejecting it.
pub open spec fn resolve_item_of(entries: Seq<TableEntryV>, item: ProjItemV) -> Result<
    FieldProvenanceV,
    SelectErrorV,
> {
    match item {
        ProjItemV::Expr { expr, alias } => resolve_expr_of(entries, expr, alias),
        ProjItemV::Other => Err(SelectErrorV::UnsupportedExpressionShape),
    }
}

/// The provenances of a whole projection list, in projection order; the
/// first rejected item's error wins.
pub open spec fn resolve_items_of(entries: Seq<TableEntryV>, items: Seq<ProjItemV>) -> Result<
    Seq<FieldProvenanceV>,
    SelectErrorV,
>
    decreases items.len(),
{
    if items.len() == 0 {
        Ok(Seq::empty())
    } else {
        match resolve_items_of(entries, items.drop_last()) {
            Ok(ps) => match resolve_item_of(entries, items.last()) {
                Ok(p) => Ok(ps.push(p)),
                Err(e) => Err(e),
            },
            Err(e) => Err(e),
        }
    }
}

/// Resolves one projection item against the registry.
pub fn resolve_item(entries: &Vec<TableEntry>, item: &ProjItem) -> (r: Result<
    FieldProvenance,
    SelectError,
>)
    ensures
        match r {
            Ok(p) => resolve_item_of(entries.deep_view(), item@) == Ok::<_, SelectErrorV>(p@),
            Err(e) => resolve_item_of(entries.deep_view(), item@) == Err::<FieldProvenanceV, _>(
                e@,
            ),
        },
{
    match item {
        ProjItem::Expr { expr, alias } => {
            let alias_out = match alias {
                Some(a) => Some(a.clone()),
                None => None,
            };
            match expr {
                ColumnExpr::Name(field) => match first_declared(entries) {
                    Some(table) => Ok(
                        FieldProvenance { table, field: field.clone(), alias: alias_out },
                    ),
                    None => Err(SelectError::NoTablesInScope),
                },
                ColumnExpr::Qualified(parts) => if parts.len() == 0 {
                    Err(SelectError::UnsupportedExpressionShape)
                } else {
                    match lookup(entries, &parts[0]) {
                        Some(table) => Ok(
                            FieldProvenance {
                                table,
                                field: parts[parts.len() - 1].clone(),
                                alias: alias_out,
                            },
                        ),
                        None => Err(SelectError::UnknownTableQualifier(parts[0].clone())),
                    }
                },
                ColumnExpr::Other => Err(SelectError::UnsupportedExpressionShape),
            }
        },
        ProjItem::Other => Err(SelectError::UnsupportedExpressionShape),
    }
}

/// Resolves a whole projection list against the registry, in order.
pub fn resolve_projection(entries: &Vec<TableEntry>, items: &Vec<ProjItem>) -> (r: Result<
    Vec<FieldProvenance>,
    SelectError,
>)
    ensures
        match r {
            Ok(ps) => resolve_items_of(entries.deep_view(), items.deep_view()) == Ok::<
                _,
                SelectErrorV,
            >(ps.deep_view()),
            Err(e) => resolve_items_of(entries.deep_view(), items.deep_view()) == Err::<
                Seq<FieldProvenanceV>,
                _,
            >(e@),
        },
{
    let ghost iv = items.deep_view();
    let mut out: Vec<FieldProvenance> = Vec::new();
    proof {
        assert(iv.take(0) =~= Seq::<ProjItemV>::empty());
        assert(out.deep_view() =~= Seq::<FieldProvenanceV>::empty());
    }
    for i in 0..items.len()
        invariant
            iv == items.deep_view(),
            resolve_items_of(entries.deep_view(), iv.take(i as int)) == Ok::<_, SelectErrorV>(
                out.deep_view(),
            ),
    {
        proof {
            assert(iv.take(i + 1).drop_last() =~= iv.take(i as int));
            assert(iv.take(i + 1).last() == iv[i as int]);
        }
        match resolve_item(entries, &items[i]) {
            Ok(p) => {
                out.push(p);
                proof {
                    assert(out.deep_view() =~= resolve_items_of(
                        entries.deep_view(),
                        iv.take(i as int),
                    )->Ok_0.push(p@));
                }
            },
            Err(e) => {
                proof {
                    assert(resolve_items_of(entries.deep_view(), iv.take(i + 1))
                        == Err::<Seq<FieldProvenanceV>, _>(e@));
                    lemma_error_persists(entries.deep_view(), iv, i + 1, e@);
                }
                return Err(e);
            },
        }
    }
    proof {
        assert(iv.take(items.len() as int) =~= iv);
    }
    Ok(out)
}

/// Once a prefix of the projection list is rejected, the whole list is
/// rejected with the same error.
proof fn lemma_error_persists(
    entries: Seq<TableEntryV>,
    items: Seq<ProjItemV>,
    n: int,
    e: SelectErrorV,
)
    requires
        0 <= n <= items.len(),
        resolve_items_of(entries, items.take(n)) == Err::<Seq<FieldProvenanceV>, _>(e),
    ensures
        resolve_items_of(entries, items) == Err::<Seq<FieldProvenanceV>, _>(e),
    decreases items.len() - n,
{
    if n == items.len() {
        assert(items.take(n) =~= items);
    } else {
        assert(items.take(n + 1).drop_last() =~= items.take(n));
        lemma_error_persists(entries, items, n + 1, e);
    }
}

/// All items of the projection list are bare column identifiers.
pub open spec fn all_bare(items: Seq<ProjItemV>) -> bool {
    forall|i: int|
        0 <= i < items.len() ==> #[trigger] items[i] matches ProjItemV::Expr {
            expr: ColumnExprV::Name(_),
            ..
        }
}

/// With at least one table in scope, a projection list of bare column
/// identifiers resolves in full: one provenance per item, in listed order,
/// each attributed to the registry's first surviving table, carrying the
/// item's column name and output alias.
pub proof fn lemma_bare_items_resolve(entries: Seq<TableEntryV>, items: Seq<ProjItemV>)
    requires
        entries.len() > 0,
        all_bare(items),
    ensures
        resolve_items_of(entries, items) matches Ok(ps) && ps.len() == items.len() && (forall|
            i: int,
        |
            0 <= i < items.len() ==> ps[i] == (FieldProvenanceV {
                table: first_declared_of(entries)->Some_0,
                field: items[i]->Expr_expr->Name_0,
                alias: items[i]->Expr_alias,
            })),
    decreases items.len(),
{
    lemma_first_declared_some(entries);
    if items.len() == 0 {
    } else {
        assert(all_bare(items.drop_last())) by {
            assert(forall|i: int|
                0 <= i < items.len() - 1 ==> items.drop_last()[i] == items[i]);
        }
        lemma_bare_items_resolve(entries, items.drop_last());
        assert(items.last() matches ProjItemV::Expr { expr: ColumnExprV::Name(_), .. });
    }
}

/// For all single-table queries whose projection is a list of bare column
/// identifiers, resolution succeeds with one provenance per listed column,
/// in listed order, each pointing at the single declared table.
pub proof fn lemma_single_table_plan(
    name: Seq<Seq<char>>,
    alias: Option<Seq<char>>,
    items: Seq<ProjItemV>,
)
    requires
        name.len() > 0,
        all_bare(items),
    ensures
        resolve_items_of(registry_of(seq![FromItemV::Table { name, alias }]), items) matches Ok(ps)
            && ps.len() == items.len() && (forall|i: int|
            0 <= i < items.len() ==> ps[i] == (FieldProvenanceV {
                table: name.last(),
                field: items[i]->Expr_expr->Name_0,
                alias: items[i]->Expr_alias,
            })),
{
    let from = seq![FromItemV::Table { name, alias }];
    let entries = registry_of(from);
    let e = TableEntryV {
        effective: match alias {
            Some(a) => a,
            None => name.last(),
        },
        declared: name.last(),
    };
    assert(from.last() == FromItemV::Table { name, alias });
    assert(from.drop_last() =~= Seq::<FromItemV>::empty());
    assert(registry_of(from.drop_last()) =~= Seq::<TableEntryV>::empty());
    assert(entry_of(from.last()) == Some(e));
    assert(entries =~= seq![e]);
    assert(entries.skip(1) =~= Seq::<TableEntryV>::empty());
    assert(first_declared_of(entries) == Some(name.last()));
    lemma_bare_items_resolve(entries, items);
}

/// For a qualified reference `t.col` where `t` is bound in the registry,
/// resolution always picks the table bound under `t` — whatever other
/// tables are also in scope — and the column is the reference's last part.
pub proof fn lemma_qualified_picks_bound_table(
    entries: Seq<TableEntryV>,
    qualifier: Seq<char>,
    column: Seq<char>,
    alias: Option<Seq<char>>,
    declared: Seq<char>,
)
    requires
        lookup_of(entries, qualifier) == Some(declared),
    ensures
        resolve_item_of(
            entries,
            ProjItemV::Expr { expr: ColumnExprV::Qualified(seq![qualifier, column]), alias },
        ) == Ok::<_, SelectErrorV>(FieldProvenanceV { table: declared, field: column, alias }),
{
    let parts = seq![qualifier, column];
    assert(parts[0] == qualifier);
    assert(parts.last() == column);
}

} // verus!
