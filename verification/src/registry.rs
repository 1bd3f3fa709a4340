//! The table registry: what the `FROM` clause declares.
//!
//! Each usable table reference contributes one binding from its effective
//! name (alias if given, else the last component of its declared, possibly
//! qualified, name) to its declared name. Non-table items, and table items
//! whose name has no usable part, are silently skipped. Keys need not be
//! unique: lookups take the last binding with the key, as a map built by
//! inserting the entries in declaration order would.

use crate::model::FromItem;
use crate::model::FromItemV;
use crate::model::TableEntry;
use crate::model::TableEntryV;
use vstd::prelude::*;

verus! {

/// The registry binding contributed by one `FROM` item, if any.
pub open spec fn entry_of(item: FromItemV) -> Option<TableEntryV> {
    match item {
        FromItemV::Table { name, alias } => if name.len() == 0 {
            None
        } else {
            Some(
                TableEntryV {
                    effective: match alias {
                        Some(a) => a,
                        None => name.last(),
                    },
                    declared: name.last(),
                },
            )
        },
        FromItemV::Other => None,
    }
}

/// The registry built from a `FROM` clause, in declaration order.
pub open spec fn registry_of(from: Seq<FromItemV>) -> Seq<TableEntryV>
    decreases from.len(),
{
    if from.len() == 0 {
        Seq::empty()
    } else {
        registry_of(from.drop_last()) + match entry_of(from.last()) {
            Some(e) => seq![e],
            None => Seq::empty(),
        }
    }
}

/// The declared name bound to `key`, taking the last binding when the same
/// effective name was declared more than once.
pub open spec fn lookup_of(entries: Seq<TableEntryV>, key: Seq<char>) -> Option<Seq<char>>
    decreases entries.len(),
{
    if entries.len() == 0 {
        None
    } else if entries.last().effective == key {
        Some(entries.last().declared)
    } else {
        lookup_of(entries.drop_last(), key)
    }
}

/// Some entry of `entries` has `key` as its effective name.
pub open spec fn has_effective(entries: Seq<TableEntryV>, key: Seq<char>) -> bool {
    exists|j: int| 0 <= j < entries.len() && entries[j].effective == key
}

/// The table a bare column identifier is attributed to: the declared name
/// of the first binding still in force — one whose effective name is not
/// re-bound by a later entry, so that the pick is always a value of the
/// registry under its last-binding-wins reading. This is only correct for
/// single-table queries; with more tables in scope the earliest surviving
/// one is picked deterministically, a documented limitation of
/// bare-identifier resolution.
pub open spec fn first_declared_of(entries: Seq<TableEntryV>) -> Option<Seq<char>>
    decreases entries.len(),
{
    if entries.len() == 0 {
        None
    } else if !has_effective(entries.skip(1), entries[0].effective) {
        Some(entries[0].declared)
    } else {
        first_declared_of(entries.skip(1))
    }
}

/// A non-empty registry always yields a table for bare identifiers: the
/// last binding of any effective name is never shadowed.
pub proof fn lemma_first_declared_some(entries: Seq<TableEntryV>)
    requires
        entries.len() > 0,
    ensures
        first_declared_of(entries) is Some,
    decreases entries.len(),
{
    if has_effective(entries.skip(1), entries[0].effective) {
        assert(entries.skip(1).len() > 0);
        lemma_first_declared_some(entries.skip(1));
    }
}

/// Appending one entry to the scanned range either finds the key there or
/// leaves the search where it was.
proof fn lemma_has_effective_push(s: Seq<TableEntryV>, x: TableEntryV, key: Seq<char>)
    ensures
        has_effective(s.push(x), key) <==> (has_effective(s, key) || x.effective == key),
{
    if has_effective(s, key) {
        let j = choose|j: int| 0 <= j < s.len() && s[j].effective == key;
        assert(s.push(x)[j].effective == key);
    }
    if x.effective == key {
        assert(s.push(x)[s.len() as int].effective == key);
    }
    if has_effective(s.push(x), key) {
        let j = choose|j: int| 0 <= j < s.push(x).len() && s.push(x)[j].effective == key;
        if j < s.len() {
            assert(s[j].effective == key);
        } else {
            assert(s.push(x)[j] == x);
        }
    }
}

/// Builds the table registry from a `FROM` clause.
pub fn build_registry(from: &Vec<FromItem>) -> (r: Vec<TableEntry>)
    ensures
        r.deep_view() == registry_of(from.deep_view()),
{
    let mut out: Vec<TableEntry> = Vec::new();
    for i in 0..from.len()
        invariant
            out.deep_view() == registry_of(from.deep_view().take(i as int)),
    {
        match &from[i] {
            FromItem::Table { name, alias } => {
                if name.len() > 0 {
                    let declared = name[name.len() - 1].clone();
                    let effective = match alias {
                        Some(a) => a.clone(),
                        None => declared.clone(),
                    };
                    out.push(TableEntry { effective, declared });
                }
            },
            FromItem::Other => {},
        }
        proof {
            let fv = from.deep_view();
            assert(fv.take(i + 1).drop_last() =~= fv.take(i as int));
            assert(fv.take(i + 1).last() == fv[i as int]);
            assert(fv[i as int] == from[i as int].deep_view());
            match entry_of(fv[i as int]) {
                Some(e) => {
                    assert(out.deep_view() =~= registry_of(fv.take(i as int)) + seq![e]);
                },
                None => {
                    assert(out.deep_view() =~= registry_of(fv.take(i as int)));
                },
            }
            assert(out.deep_view() =~= registry_of(fv.take(i + 1)));
        }
    }
    proof {
        assert(from.deep_view().take(from.len() as int) =~= from.deep_view());
    }
    out
}

/// Looks `key` up in the registry, last binding first.
pub fn lookup(entries: &Vec<TableEntry>, key: &String) -> (r: Option<String>)
    ensures
        r.deep_view() == lookup_of(entries.deep_view(), key@),
{
    let ghost ev = entries.deep_view();
    let mut i: usize = entries.len();
    proof {
        assert(ev.take(i as int) =~= ev);
    }
    while i > 0
        invariant
            i <= entries.len(),
            ev == entries.deep_view(),
            lookup_of(ev, key@) == lookup_of(ev.take(i as int), key@),
        decreases i,
    {
        i = i - 1;
        proof {
            assert(ev.take(i + 1).drop_last() =~= ev.take(i as int));
            assert(ev.take(i + 1).last() == ev[i as int]);
        }
        if entries[i].effective == *key {
            assert(lookup_of(ev, key@) == Some(ev[i as int].declared));
            return Some(entries[i].declared.clone());
        }
    }
    proof {
        assert(ev.take(0) =~= Seq::<TableEntryV>::empty());
    }
    None
}

/// The table a bare column identifier is attributed to, if any: the first
/// entry whose effective name is not re-bound later.
pub fn first_declared(entries: &Vec<TableEntry>) -> (r: Option<String>)
    ensures
        r.deep_view() == first_declared_of(entries.deep_view()),
{
    let ghost ev = entries.deep_view();
    let n = entries.len();
    let mut i: usize = 0;
    proof {
        assert(ev.skip(0) =~= ev);
    }
    while i < n
        invariant
            i <= n,
            n == entries.len(),
            ev == entries.deep_view(),
            first_declared_of(ev) == first_declared_of(ev.skip(i as int)),
        decreases n - i,
    {
        let ghost key = ev[i as int].effective;
        let mut found = false;
        let mut j: usize = i + 1;
        proof {
            assert(ev.subrange(i + 1, j as int) =~= Seq::<TableEntryV>::empty());
        }
        while j < n
            invariant
                i < n,
                i + 1 <= j <= n,
                n == entries.len(),
                ev == entries.deep_view(),
                key == ev[i as int].effective,
                found == has_effective(ev.subrange(i + 1, j as int), key),
            decreases n - j,
        {
            proof {
                assert(ev.subrange(i + 1, j + 1) =~= ev.subrange(i + 1, j as int).push(
                    ev[j as int],
                ));
                lemma_has_effective_push(ev.subrange(i + 1, j as int), ev[j as int], key);
            }
            if entries[j].effective == entries[i].effective {
                found = true;
            }
            j = j + 1;
        }
        proof {
            assert(ev.subrange(i + 1, n as int) =~= ev.skip(i + 1));
            assert(ev.skip(i as int)[0] == ev[i as int]);
            assert(ev.skip(i as int).skip(1) =~= ev.skip(i + 1));
            assert(ev.skip(i as int).len() > 0);
        }
        if !found {
            return Some(entries[i].declared.clone());
        }
        i = i + 1;
    }
    proof {
        assert(ev.skip(n as int) =~= Seq::<TableEntryV>::empty());
    }
    None
}

/// A table declared under an alias is keyed by the alias, not by its
/// declared name: the binding a `FROM` item with an alias contributes uses
/// the alias as its effective name.
pub proof fn lemma_alias_keys_registry(name: Seq<Seq<char>>, alias: Seq<char>)
    requires
        name.len() > 0,
    ensures
        entry_of(FromItemV::Table { name, alias: Some(alias) }) == Some(
            TableEntryV { effective: alias, declared: name.last() },
        ),
{
}

/// In the registry of one aliased table, lookups go through the alias: the
/// declared name is bound under the alias and — unless the two coincide —
/// not under itself.
pub proof fn lemma_alias_overrides_declared_name(name: Seq<Seq<char>>, alias: Seq<char>)
    requires
        name.len() > 0,
    ensures
        ({
            let entries = registry_of(seq![FromItemV::Table { name, alias: Some(alias) }]);
            lookup_of(entries, alias) == Some(name.last()) && (alias != name.last()
                ==> lookup_of(entries, name.last()) is None)
        }),
{
    let from = seq![FromItemV::Table { name, alias: Some(alias) }];
    let entries = registry_of(from);
    let e = TableEntryV { effective: alias, declared: name.last() };
    assert(from.drop_last() =~= Seq::<FromItemV>::empty());
    assert(registry_of(from.drop_last()) =~= Seq::<TableEntryV>::empty());
    assert(entry_of(from.last()) == Some(e));
    assert(entries =~= seq![e]);
    assert(seq![e].last() == e);
    assert(seq![e].drop_last() =~= Seq::<TableEntryV>::empty());
    assert(lookup_of(Seq::<TableEntryV>::empty(), name.last()) is None);
    assert(lookup_of(seq![e], alias) == Some(name.last()));
    if alias != name.last() {
        assert(lookup_of(seq![e], name.last()) == lookup_of(
            Seq::<TableEntryV>::empty(),
            name.last(),
        ));
    }
}

} // verus!
