use vstd::prelude::*;
use crate::sintax::DataTypeView;
use crate::table::{
    find_entry, find_scope, lemma_find_binding, lemma_find_entry, lemma_find_scope, ScopeView,
    SymbolView, TableView,
};

verus! {

/// Whether no two entries of a scope have the same name.
pub open spec fn scope_wf(scope: ScopeView) -> bool {
    forall|i: int, j: int|
        0 <= i < j < scope.entries.len() ==> (#[trigger] scope.entries[i]).key != (
        #[trigger] scope.entries[j]).key
}

/// Whether a table is well formed: no two scopes have the same id, no two entries of
/// a scope have the same name, the outermost active scope is the global scope 0, and
/// every active scope exists.
pub open spec fn table_wf(table: TableView) -> bool {
    &&& forall|i: int, j: int|
        0 <= i < j < table.scopes.len() ==> (#[trigger] table.scopes[i]).id != (
        #[trigger] table.scopes[j]).id
    &&& forall|i: int| 0 <= i < table.scopes.len() ==> scope_wf(#[trigger] table.scopes[i])
    &&& table.active.len() > 0
    &&& table.active[0] == 0
    &&& forall|d: int| 0 <= d < table.active.len() ==> table.has_scope(#[trigger] table.active[d])
}

/// Where a scope stands, it is what `find_scope` finds for its id, if no scope
/// before it has that id.
pub proof fn lemma_find_scope_is(scopes: Seq<ScopeView>, id: u32, at: int, from: int)
    requires
        0 <= from <= at < scopes.len(),
        scopes[at].id == id,
        forall|k: int| from <= k < at ==> (#[trigger] scopes[k]).id != id,
    ensures
        find_scope(scopes, id, from) == at,
    decreases at - from,
{
    if from < at {
        lemma_find_scope_is(scopes, id, at, from + 1);
    }
}

/// Whether a scope is found depends on the ids alone.
pub proof fn lemma_find_scope_same_ids(a: Seq<ScopeView>, b: Seq<ScopeView>, id: u32, from: int)
    requires
        a.len() == b.len(),
        0 <= from <= a.len(),
        forall|k: int| 0 <= k < a.len() ==> (#[trigger] a[k]).id == (#[trigger] b[k]).id,
    ensures
        find_scope(a, id, from) == find_scope(b, id, from),
    decreases a.len() - from,
{
    if from < a.len() && a[from].id != id {
        lemma_find_scope_same_ids(a, b, id, from + 1);
    }
}

/// A scope that is found stays found when a scope is put after the others.
pub proof fn lemma_find_scope_push(scopes: Seq<ScopeView>, more: ScopeView, id: u32, from: int)
    requires
        0 <= from <= scopes.len(),
    ensures
        find_scope(scopes, id, from) < scopes.len() ==> find_scope(scopes.push(more), id, from)
            == find_scope(scopes, id, from),
        find_scope(scopes, id, from) >= scopes.len() && more.id == id ==> find_scope(
            scopes.push(more),
            id,
            from,
        ) == scopes.len(),
    decreases scopes.len() - from,
{
    let longer = scopes.push(more);
    if from < scopes.len() {
        assert(longer[from] == scopes[from]);
        if scopes[from].id != id {
            lemma_find_scope_push(scopes, more, id, from + 1);
        }
    } else {
        assert(longer[from] == more);
    }
}

/// Whether a step left the scopes as they were: the same scopes are active, in the
/// same order, and every scope that existed still exists.
pub open spec fn scopes_kept(before: TableView, after: TableView) -> bool {
    &&& after.active == before.active
    &&& forall|id: u32| before.has_scope(id) ==> #[trigger] after.has_scope(id)
}

/// Inserting a symbol leaves the scopes as they were.
pub proof fn insert_keeps_scopes(table: TableView, symbol: SymbolView)
    ensures
        scopes_kept(table, table.insert(symbol)),
{
    let after = table.insert(symbol);
    assert forall|id: u32| table.has_scope(id) implies #[trigger] after.has_scope(id) by {
        if after != table {
            lemma_find_scope(table.scopes, table.active.last(), 0);
            lemma_find_scope_same_ids(table.scopes, after.scopes, id, 0);
        }
    }
}

/// Making a scope and entering it puts its id on the stack of active scopes, and
/// every scope that existed still exists.
pub proof fn open_scope_pushes(table: TableView, id: u32)
    ensures
        table.create_scope(id).enter_scope(id).active == table.active.push(id),
        table.create_scope(id).enter_scope(id).has_scope(id),
        forall|other: u32|
            table.has_scope(other) ==> #[trigger] table.create_scope(id).enter_scope(id).has_scope(
                other,
            ),
{
    let made = table.create_scope(id);
    let empty = ScopeView { id, entries: Seq::empty() };
    lemma_find_scope(table.scopes, id, 0);
    let i = find_scope(table.scopes, id, 0);
    if i < table.scopes.len() {
        lemma_find_scope_same_ids(table.scopes, made.scopes, id, 0);
        assert forall|other: u32| table.has_scope(other) implies #[trigger] made.has_scope(
            other,
        ) by {
            lemma_find_scope_same_ids(table.scopes, made.scopes, other, 0);
        }
    } else {
        lemma_find_scope_push(table.scopes, empty, id, 0);
        assert forall|other: u32| table.has_scope(other) implies #[trigger] made.has_scope(
            other,
        ) by {
            lemma_find_scope_push(table.scopes, empty, other, 0);
        }
    }
    assert(made.has_scope(id));
    let entered = made.enter_scope(id);
    assert(entered.scopes == made.scopes);
    assert forall|other: u32| table.has_scope(other) implies #[trigger] entered.has_scope(
        other,
    ) by {
        assert(made.has_scope(other));
    }
}

/// Entering a scope that exists puts its id on the stack of active scopes.
pub proof fn enter_scope_pushes(table: TableView, id: u32)
    requires
        table.has_scope(id),
    ensures
        table.enter_scope(id).active == table.active.push(id),
        forall|other: u32| table.has_scope(other) ==> #[trigger] table.enter_scope(id).has_scope(other),
{
    let entered = table.enter_scope(id);
    assert(entered.scopes == table.scopes);
}

/// Leaving the scope that was entered last gives back the stack of active scopes
/// from before it was entered, and every scope that existed still exists.
pub proof fn close_scope_pops(before: TableView, id: u32, inside: TableView)
    requires
        before.active.len() > 0,
        inside.active == before.active.push(id),
    ensures
        inside.exit_scope().active == before.active,
        forall|other: u32| inside.has_scope(other) ==> #[trigger] inside.exit_scope().has_scope(other),
{
    assert(inside.active.drop_last() =~= before.active);
    let left = inside.exit_scope();
    assert(left.scopes == inside.scopes);
}

/// The table that `new` makes is well formed.
pub proof fn initial_is_wf()
    ensures
        table_wf(TableView::initial()),
{
    let t = TableView::initial();
    assert(find_scope(t.scopes, 0, 0) == 0);
}

/// Making a scope keeps a table well formed.
pub proof fn create_scope_keeps_wf(table: TableView, id: u32)
    requires
        table_wf(table),
    ensures
        table_wf(table.create_scope(id)),
{
    let after = table.create_scope(id);
    let i = find_scope(table.scopes, id, 0);
    lemma_find_scope(table.scopes, id, 0);
    let empty = ScopeView { id, entries: Seq::empty() };
    assert(scope_wf(empty));
    if i < table.scopes.len() {
        assert forall|d: int| 0 <= d < after.active.len() implies after.has_scope(
            #[trigger] after.active[d],
        ) by {
            assert(table.has_scope(table.active[d]));
            lemma_find_scope_same_ids(table.scopes, after.scopes, after.active[d], 0);
        }
    } else {
        assert forall|d: int| 0 <= d < after.active.len() implies after.has_scope(
            #[trigger] after.active[d],
        ) by {
            assert(table.has_scope(table.active[d]));
            lemma_find_scope_push(table.scopes, empty, after.active[d], 0);
        }
    }
}

/// Entering a scope keeps a table well formed.
pub proof fn enter_scope_keeps_wf(table: TableView, id: u32)
    requires
        table_wf(table),
    ensures
        table_wf(table.enter_scope(id)),
{
    let after = table.enter_scope(id);
    if table.has_scope(id) {
        assert forall|d: int| 0 <= d < after.active.len() implies after.has_scope(
            #[trigger] after.active[d],
        ) by {
            if d < table.active.len() {
                assert(table.has_scope(table.active[d]));
            }
        }
    }
}

/// Leaving a scope keeps a table well formed: the global scope is never left.
pub proof fn exit_scope_keeps_wf(table: TableView)
    requires
        table_wf(table),
    ensures
        table_wf(table.exit_scope()),
{
    let after = table.exit_scope();
    assert forall|d: int| 0 <= d < after.active.len() implies after.has_scope(
        #[trigger] after.active[d],
    ) by {
        assert(table.has_scope(table.active[d]));
    }
}

/// Binding a name in a scope keeps its names distinct.
pub proof fn bind_keeps_wf(scope: ScopeView, key: Seq<char>, symbol: SymbolView)
    requires
        scope_wf(scope),
    ensures
        scope_wf(scope.bind(key, symbol)),
        scope.bind(key, symbol).id == scope.id,
        scope.bind(key, symbol).get(key) == Some(symbol),
{
    let after = scope.bind(key, symbol);
    let j = find_entry(scope.entries, key, 0);
    lemma_find_entry(scope.entries, key, 0);
    lemma_find_entry(after.entries, key, 0);
    if j < scope.entries.len() {
        assert(after.entries[j].key == key);
        assert forall|a: int, b: int| 0 <= a < b < after.entries.len() implies (
        #[trigger] after.entries[a]).key != (#[trigger] after.entries[b]).key by {
            assert(scope.entries[a].key != scope.entries[b].key);
        }
    } else {
        assert(after.entries[j].key == key);
        assert forall|a: int, b: int| 0 <= a < b < after.entries.len() implies (
        #[trigger] after.entries[a]).key != (#[trigger] after.entries[b]).key by {
            if b < scope.entries.len() {
                assert(scope.entries[a].key != scope.entries[b].key);
            } else {
                assert(scope.entries[a].key != key);
            }
        }
    }
    let found = find_entry(after.entries, key, 0);
    if found < after.entries.len() {
        if found != j {
            if found < j {
                assert(after.entries[found].key != after.entries[j].key);
            } else {
                assert(after.entries[j].key != after.entries[found].key);
            }
        }
    } else {
        assert(after.entries[j].key == key);
    }
}

/// Inserting a symbol keeps a table well formed.
pub proof fn insert_keeps_wf(table: TableView, symbol: SymbolView)
    requires
        table_wf(table),
    ensures
        table_wf(table.insert(symbol)),
{
    let after = table.insert(symbol);
    let i = find_scope(table.scopes, table.active.last(), 0);
    lemma_find_scope(table.scopes, table.active.last(), 0);
    if i < table.scopes.len() {
        bind_keeps_wf(table.scopes[i], symbol.value, symbol);
        assert forall|d: int| 0 <= d < after.active.len() implies after.has_scope(
            #[trigger] after.active[d],
        ) by {
            assert(table.has_scope(table.active[d]));
            lemma_find_scope_same_ids(table.scopes, after.scopes, after.active[d], 0);
        }
    }
}

/// In a well-formed table, a symbol that was inserted is what a lookup of its name
/// finds.
pub proof fn lookup_finds_inserted(table: TableView, symbol: SymbolView)
    requires
        table_wf(table),
    ensures
        table.insert(symbol).lookup(symbol.value) == Some(symbol),
{
    let after = table.insert(symbol);
    let id = table.active.last();
    assert(table.has_scope(id));
    let i = find_scope(table.scopes, id, 0);
    lemma_find_scope(table.scopes, id, 0);
    bind_keeps_wf(table.scopes[i], symbol.value, symbol);
    lemma_find_scope_same_ids(table.scopes, after.scopes, id, 0);
    assert(after.active.len() == table.active.len());
    assert(after.active[after.active.len() - 1] == id);
}

/// Replacing the symbol of a name keeps a table well formed.
pub proof fn replace_symbol_keeps_wf(table: TableView, key: Seq<char>, symbol: SymbolView)
    requires
        table_wf(table),
    ensures
        table_wf(table.replace_symbol(key, symbol)),
{
    let after = table.replace_symbol(key, symbol);
    let i = table.binding_scope(key);
    lemma_find_binding(table.scopes, key, 0);
    if i < table.scopes.len() {
        let j = find_entry(table.scopes[i].entries, key, 0);
        lemma_find_entry(table.scopes[i].entries, key, 0);
        let scope = table.scopes[i];
        let changed = scope.with_symbol(j, symbol);
        assert forall|a: int, b: int| 0 <= a < b < changed.entries.len() implies (
        #[trigger] changed.entries[a]).key != (#[trigger] changed.entries[b]).key by {
            assert(scope.entries[a].key != scope.entries[b].key);
        }
        assert forall|d: int| 0 <= d < after.active.len() implies after.has_scope(
            #[trigger] after.active[d],
        ) by {
            assert(table.has_scope(table.active[d]));
            lemma_find_scope_same_ids(table.scopes, after.scopes, after.active[d], 0);
        }
    }
}

/// Giving a variable a type keeps a table well formed.
pub proof fn update_var_type_keeps_wf(table: TableView, key: Seq<char>, t: DataTypeView)
    requires
        table_wf(table),
    ensures
        table_wf(table.update_var_type(key, t)),
{
    match table.read_symbol(key) {
        Some(symbol) => {
            replace_symbol_keeps_wf(
                table,
                key,
                SymbolView {
                    kind: crate::table::SymbolKindView::Variable { data_type: Some(t), assigned: false },
                    ..symbol
                },
            );
        },
        None => {},
    }
}

/// Marking a variable as having a value keeps a table well formed.
pub proof fn update_var_assigned_keeps_wf(table: TableView, key: Seq<char>)
    requires
        table_wf(table),
    ensures
        table_wf(table.update_var_assigned(key)),
{
    match table.read_symbol(key) {
        Some(symbol) => match symbol.kind {
            crate::table::SymbolKindView::Variable { data_type, assigned } => {
                replace_symbol_keeps_wf(
                    table,
                    key,
                    SymbolView {
                        kind: crate::table::SymbolKindView::Variable { data_type, assigned: true },
                        ..symbol
                    },
                );
            },
            _ => {},
        },
        None => {},
    }
}

} // verus!
