use vstd::prelude::*;
use vstd::string::*;
use crate::sintax::{
    duplicate_names, duplicate_types, name_views, type_views, DataType, DataTypeView,
};

verus! {

/// Whether an entry of the table stands for a declaration or for a use.
#[derive(Debug, Clone, Copy, PartialEq, Eq, Structural)]
pub enum UseType {
    Declaration,
    Reference,
}

/// What a symbol is, as a mathematical value.
pub enum SymbolKindView {
    Variable { data_type: Option<DataTypeView>, assigned: bool },
    Function {
        data_type: Option<DataTypeView>,
        parameters: Seq<Seq<char>>,
        param_types: Seq<DataTypeView>,
    },
}

/// What a symbol is: a variable, with its type where one is known and with the mark
/// of having a value; or a function, with its return type and its parameters.
#[derive(Debug)]
pub enum SymbolKind {
    Variable { data_type: Option<DataType>, assigned: bool },
    Function { data_type: Option<DataType>, parameters: Vec<String>, param_types: Vec<DataType> },
}

/// The meaning of a type that may be absent.
pub open spec fn optional_type_view(t: Option<DataType>) -> Option<DataTypeView> {
    match t {
        Some(t) => Some(t@),
        None => None,
    }
}

/// A copy of a type that may be absent.
pub fn duplicate_optional_type(t: &Option<DataType>) -> (r: Option<DataType>)
    ensures
        optional_type_view(r) == optional_type_view(*t),
{
    match t {
        Some(t) => Some(t.duplicate()),
        None => None,
    }
}

impl View for SymbolKind {
    type V = SymbolKindView;

    open spec fn view(&self) -> SymbolKindView {
        match self {
            SymbolKind::Variable { data_type, assigned } => SymbolKindView::Variable {
                data_type: optional_type_view(*data_type),
                assigned: *assigned,
            },
            SymbolKind::Function { data_type, parameters, param_types } => SymbolKindView::Function {
                data_type: optional_type_view(*data_type),
                parameters: name_views(parameters@),
                param_types: type_views(param_types@),
            },
        }
    }
}

impl Clone for SymbolKind {
    fn clone(&self) -> (r: SymbolKind)
        ensures
            r@ == self@,
    {
        match self {
            SymbolKind::Variable { data_type, assigned } => SymbolKind::Variable {
                data_type: duplicate_optional_type(data_type),
                assigned: *assigned,
            },
            SymbolKind::Function { data_type, parameters, param_types } => SymbolKind::Function {
                data_type: duplicate_optional_type(data_type),
                parameters: duplicate_names(parameters),
                param_types: duplicate_types(param_types),
            },
        }
    }
}

/// A symbol, as a mathematical value.
pub struct SymbolView {
    pub value: Seq<char>,
    pub occurrence: int,
    pub scope: int,
    pub use_type: UseType,
    pub kind: SymbolKindView,
}

/// An entry of the symbol table.
#[derive(Debug)]
pub struct Symbol {
    /// The lexeme.
    pub value: String,
    /// The line of the first occurrence.
    pub occurrence: usize,
    /// The id of the declaring scope.
    pub scope: u32,
    pub use_type: UseType,
    pub kind: SymbolKind,
}

impl View for Symbol {
    type V = SymbolView;

    open spec fn view(&self) -> SymbolView {
        SymbolView {
            value: self.value@,
            occurrence: self.occurrence as int,
            scope: self.scope as int,
            use_type: self.use_type,
            kind: self.kind@,
        }
    }
}

impl Clone for Symbol {
    fn clone(&self) -> (r: Symbol)
        ensures
            r@ == self@,
    {
        Symbol {
            value: self.value.clone(),
            occurrence: self.occurrence,
            scope: self.scope,
            use_type: self.use_type,
            kind: self.kind.clone(),
        }
    }
}

impl Symbol {
    /// A variable that has no value yet.
    pub fn variable(
        value: String,
        occurrence: usize,
        scope: u32,
        use_type: UseType,
        data_type: Option<DataType>,
    ) -> (symbol: Symbol)
        ensures
            symbol@ == (SymbolView {
                value: value@,
                occurrence: occurrence as int,
                scope: scope as int,
                use_type,
                kind: SymbolKindView::Variable {
                    data_type: optional_type_view(data_type),
                    assigned: false,
                },
            }),
    {
        Symbol {
            value,
            occurrence,
            scope,
            use_type,
            kind: SymbolKind::Variable { data_type, assigned: false },
        }
    }

    /// A function with its return type and its parameters' names and types.
    pub fn function(
        value: String,
        occurrence: usize,
        scope: u32,
        use_type: UseType,
        data_type: Option<DataType>,
        parameters: Vec<String>,
        param_types: Vec<DataType>,
    ) -> (symbol: Symbol)
        ensures
            symbol@ == (SymbolView {
                value: value@,
                occurrence: occurrence as int,
                scope: scope as int,
                use_type,
                kind: SymbolKindView::Function {
                    data_type: optional_type_view(data_type),
                    parameters: name_views(parameters@),
                    param_types: type_views(param_types@),
                },
            }),
    {
        Symbol {
            value,
            occurrence,
            scope,
            use_type,
            kind: SymbolKind::Function { data_type, parameters, param_types },
        }
    }
}

/// A name of a scope and the symbol that it is bound to, as mathematical values.
pub struct EntryView {
    pub key: Seq<char>,
    pub symbol: SymbolView,
}

/// One scope, as a mathematical value: its id and its entries in the order
/// in which their names were first bound.
pub struct ScopeView {
    pub id: u32,
    pub entries: Seq<EntryView>,
}

/// The symbol table, as a mathematical value: the scopes in the order of
/// their creation, and the ids of the active scopes, innermost last.
pub struct TableView {
    pub scopes: Seq<ScopeView>,
    pub active: Seq<u32>,
}

/// The place of the first scope at or after `from` whose id is `id`, or the number
/// of scopes where there is none.
pub open spec fn find_scope(scopes: Seq<ScopeView>, id: u32, from: int) -> int
    decreases scopes.len() - from,
{
    if from < 0 || from >= scopes.len() {
        scopes.len() as int
    } else if scopes[from].id == id {
        from
    } else {
        find_scope(scopes, id, from + 1)
    }
}

/// The place of the first entry at or after `from` whose name is `key`, or the
/// number of entries where there is none.
pub open spec fn find_entry(entries: Seq<EntryView>, key: Seq<char>, from: int) -> int
    decreases entries.len() - from,
{
    if from < 0 || from >= entries.len() {
        entries.len() as int
    } else if entries[from].key == key {
        from
    } else {
        find_entry(entries, key, from + 1)
    }
}

/// The place of the first scope at or after `from` that binds `key`, or the number
/// of scopes where none does.
pub open spec fn find_binding(scopes: Seq<ScopeView>, key: Seq<char>, from: int) -> int
    decreases scopes.len() - from,
{
    if from < 0 || from >= scopes.len() {
        scopes.len() as int
    } else if find_entry(scopes[from].entries, key, 0) < scopes[from].entries.len() {
        from
    } else {
        find_binding(scopes, key, from + 1)
    }
}

/// What `find_scope` finds is the first scope with the id.
pub proof fn lemma_find_scope(scopes: Seq<ScopeView>, id: u32, from: int)
    requires
        0 <= from <= scopes.len(),
    ensures
        from <= find_scope(scopes, id, from) <= scopes.len(),
        find_scope(scopes, id, from) < scopes.len() ==> scopes[find_scope(scopes, id, from)].id == id,
        forall|k: int| from <= k < find_scope(scopes, id, from) ==> (#[trigger] scopes[k]).id != id,
    decreases scopes.len() - from,
{
    if from < scopes.len() && scopes[from].id != id {
        lemma_find_scope(scopes, id, from + 1);
    }
}

/// What `find_entry` finds is the first entry with the name.
pub proof fn lemma_find_entry(entries: Seq<EntryView>, key: Seq<char>, from: int)
    requires
        0 <= from <= entries.len(),
    ensures
        from <= find_entry(entries, key, from) <= entries.len(),
        find_entry(entries, key, from) < entries.len() ==> entries[find_entry(
            entries,
            key,
            from,
        )].key == key,
        forall|k: int|
            from <= k < find_entry(entries, key, from) ==> (#[trigger] entries[k]).key != key,
    decreases entries.len() - from,
{
    if from < entries.len() && entries[from].key != key {
        lemma_find_entry(entries, key, from + 1);
    }
}

/// What `find_binding` finds is the first scope that binds the name.
pub proof fn lemma_find_binding(scopes: Seq<ScopeView>, key: Seq<char>, from: int)
    requires
        0 <= from <= scopes.len(),
    ensures
        from <= find_binding(scopes, key, from) <= scopes.len(),
        find_binding(scopes, key, from) < scopes.len() ==> scopes[find_binding(
            scopes,
            key,
            from,
        )].get(key) is Some,
        forall|k: int|
            from <= k < find_binding(scopes, key, from) ==> (#[trigger] scopes[k]).get(key) is None,
    decreases scopes.len() - from,
{
    if from < scopes.len() && !(find_entry(scopes[from].entries, key, 0)
        < scopes[from].entries.len()) {
        lemma_find_binding(scopes, key, from + 1);
    }
}

/// Replacing a symbol by itself changes nothing.
pub proof fn lemma_replace_same(table: TableView, key: Seq<char>)
    requires
        table.read_symbol(key) is Some,
    ensures
        table.replace_symbol(key, table.read_symbol(key)->0) == table,
{
    lemma_find_binding(table.scopes, key, 0);
    let i = table.binding_scope(key);
    let j = find_entry(table.scopes[i].entries, key, 0);
    let symbol = table.read_symbol(key)->0;
    lemma_find_entry(table.scopes[i].entries, key, 0);
    assert(table.scopes[i].with_symbol(j, symbol).entries =~= table.scopes[i].entries);
    assert(table.replace_symbol(key, symbol).scopes =~= table.scopes);
}

/// The symbols of the scopes at and after `from`, scope by scope.
pub open spec fn symbols_from(scopes: Seq<ScopeView>, from: int) -> Seq<SymbolView>
    decreases scopes.len() - from,
{
    if from < 0 || from >= scopes.len() {
        Seq::empty()
    } else {
        Seq::new(scopes[from].entries.len(), |j: int| scopes[from].entries[j].symbol)
            + symbols_from(scopes, from + 1)
    }
}

impl ScopeView {
    /// The scope with `symbol` bound to `key`: in the place of the entry that bound
    /// `key` before, or after all entries.
    pub open spec fn bind(self, key: Seq<char>, symbol: SymbolView) -> ScopeView {
        let j = find_entry(self.entries, key, 0);
        let entry = EntryView { key, symbol };
        if j < self.entries.len() {
            ScopeView { id: self.id, entries: self.entries.update(j, entry) }
        } else {
            ScopeView { id: self.id, entries: self.entries.push(entry) }
        }
    }

    /// The symbol bound to `key`, if there is one.
    pub open spec fn get(self, key: Seq<char>) -> Option<SymbolView> {
        let j = find_entry(self.entries, key, 0);
        if j < self.entries.len() {
            Some(self.entries[j].symbol)
        } else {
            None
        }
    }

    /// The scope with the symbol of entry `j` replaced.
    pub open spec fn with_symbol(self, j: int, symbol: SymbolView) -> ScopeView {
        ScopeView {
            id: self.id,
            entries: self.entries.update(j, EntryView { key: self.entries[j].key, symbol }),
        }
    }
}

impl TableView {
    /// The table that holds the empty global scope, which is active.
    pub open spec fn initial() -> TableView {
        TableView {
            scopes: seq![ScopeView { id: 0, entries: Seq::empty() }],
            active: seq![0u32],
        }
    }

    /// Whether a scope with this id exists.
    pub open spec fn has_scope(self, id: u32) -> bool {
        find_scope(self.scopes, id, 0) < self.scopes.len()
    }

    /// The table with an empty scope under `id`: in the place of the scope that had
    /// this id before, or after all scopes.
    pub open spec fn create_scope(self, id: u32) -> TableView {
        let i = find_scope(self.scopes, id, 0);
        let empty = ScopeView { id, entries: Seq::empty() };
        if i < self.scopes.len() {
            TableView { scopes: self.scopes.update(i, empty), active: self.active }
        } else {
            TableView { scopes: self.scopes.push(empty), active: self.active }
        }
    }

    /// The table with scope `id` made the innermost active scope; a scope that does
    /// not exist is not entered.
    pub open spec fn enter_scope(self, id: u32) -> TableView {
        if self.has_scope(id) {
            TableView { scopes: self.scopes, active: self.active.push(id) }
        } else {
            self
        }
    }

    /// The table with its innermost active scope left. The outermost active scope
    /// is never left.
    pub open spec fn exit_scope(self) -> TableView {
        if self.active.len() > 1 {
            TableView { scopes: self.scopes, active: self.active.drop_last() }
        } else {
            self
        }
    }

    /// The id of the innermost active scope; 0 where no scope is active.
    pub open spec fn current_scope(self) -> u32 {
        if self.active.len() > 0 {
            self.active.last()
        } else {
            0
        }
    }

    /// The table with `symbol` bound to its own name in the innermost active scope.
    pub open spec fn insert(self, symbol: SymbolView) -> TableView {
        if self.active.len() == 0 {
            self
        } else {
            let i = find_scope(self.scopes, self.active.last(), 0);
            if i < self.scopes.len() {
                TableView {
                    scopes: self.scopes.update(i, self.scopes[i].bind(symbol.value, symbol)),
                    active: self.active,
                }
            } else {
                self
            }
        }
    }

    /// The symbol that `key` is bound to in the innermost of the `depth` outermost
    /// active scopes that binds it.
    pub open spec fn lookup_within(self, key: Seq<char>, depth: int) -> Option<SymbolView>
        decreases depth,
    {
        if depth <= 0 || depth > self.active.len() {
            None
        } else {
            let i = find_scope(self.scopes, self.active[depth - 1], 0);
            if i < self.scopes.len() && self.scopes[i].get(key) is Some {
                self.scopes[i].get(key)
            } else {
                self.lookup_within(key, depth - 1)
            }
        }
    }

    /// The symbol that `key` is bound to in the innermost active scope that binds it.
    pub open spec fn lookup(self, key: Seq<char>) -> Option<SymbolView> {
        self.lookup_within(key, self.active.len() as int)
    }

    /// The symbols of all scopes, in the order of the scopes and of their entries.
    pub open spec fn all_symbols(self) -> Seq<SymbolView> {
        symbols_from(self.scopes, 0)
    }

    /// The place of the first scope that binds `key`, whether it is active or not.
    pub open spec fn binding_scope(self, key: Seq<char>) -> int {
        find_binding(self.scopes, key, 0)
    }

    /// The symbol that `key` is bound to in the first scope that binds it, whether
    /// that scope is active or not.
    pub open spec fn read_symbol(self, key: Seq<char>) -> Option<SymbolView> {
        let i = self.binding_scope(key);
        if i < self.scopes.len() {
            self.scopes[i].get(key)
        } else {
            None
        }
    }

    /// The table with the symbol that `read_symbol` finds under `key` replaced.
    pub open spec fn replace_symbol(self, key: Seq<char>, symbol: SymbolView) -> TableView {
        let i = self.binding_scope(key);
        if i < self.scopes.len() {
            let j = find_entry(self.scopes[i].entries, key, 0);
            TableView {
                scopes: self.scopes.update(i, self.scopes[i].with_symbol(j, symbol)),
                active: self.active,
            }
        } else {
            self
        }
    }

    /// The table in which the symbol found under `key` is a variable of type `t`
    /// that has no value yet. Nothing changes where `key` is not bound.
    pub open spec fn update_var_type(self, key: Seq<char>, t: DataTypeView) -> TableView {
        match self.read_symbol(key) {
            Some(symbol) => self.replace_symbol(
                key,
                SymbolView {
                    kind: SymbolKindView::Variable { data_type: Some(t), assigned: false },
                    ..symbol
                },
            ),
            None => self,
        }
    }

    /// The table in which the variable found under `key` has a value. Nothing
    /// changes where `key` is not bound, or is bound to a function.
    pub open spec fn update_var_assigned(self, key: Seq<char>) -> TableView {
        match self.read_symbol(key) {
            Some(symbol) => match symbol.kind {
                SymbolKindView::Variable { data_type, assigned } => self.replace_symbol(
                    key,
                    SymbolView {
                        kind: SymbolKindView::Variable { data_type, assigned: true },
                        ..symbol
                    },
                ),
                _ => self,
            },
            None => self,
        }
    }

    /// The parameter types of the function found under `key`.
    pub open spec fn get_params(self, key: Seq<char>) -> Option<Seq<DataTypeView>> {
        match self.read_symbol(key) {
            Some(symbol) => match symbol.kind {
                SymbolKindView::Function { data_type, parameters, param_types } => Some(param_types),
                _ => None,
            },
            None => None,
        }
    }
}

/// A name of a scope and the symbol that it is bound to. The name stays what it was
/// when the symbol was inserted.
#[derive(Debug)]
pub struct Entry {
    pub key: String,
    pub symbol: Symbol,
}

impl View for Entry {
    type V = EntryView;

    open spec fn view(&self) -> EntryView {
        EntryView { key: self.key@, symbol: self.symbol@ }
    }
}

/// The meanings of a list of entries, in order.
pub open spec fn entry_views(entries: Seq<Entry>) -> Seq<EntryView> {
    Seq::new(entries.len(), |j: int| entries[j]@)
}

/// One scope: its id and its entries.
#[derive(Debug)]
pub struct Scope {
    pub id: u32,
    pub entries: Vec<Entry>,
}

impl View for Scope {
    type V = ScopeView;

    open spec fn view(&self) -> ScopeView {
        ScopeView { id: self.id, entries: entry_views(self.entries@) }
    }
}

/// The meanings of a list of scopes, in order.
pub open spec fn scope_views(scopes: Seq<Scope>) -> Seq<ScopeView> {
    Seq::new(scopes.len(), |i: int| scopes[i]@)
}

/// The symbol table: every scope that was created, and the stack of the scopes that
/// are active.
#[derive(Debug)]
pub struct SymbolTable {
    /// The scopes in the order of their creation.
    pub all_scopes: Vec<Scope>,
    /// The ids of the active scopes, innermost last.
    pub active_scopes: Vec<u32>,
}

impl View for SymbolTable {
    type V = TableView;

    open spec fn view(&self) -> TableView {
        TableView { scopes: scope_views(self.all_scopes@), active: self.active_scopes@ }
    }
}

/// The place of the first entry whose name is `key`.
fn entry_position(entries: &Vec<Entry>, key: &String) -> (j: usize)
    ensures
        j == find_entry(entry_views(entries@), key@, 0),
        j <= entries.len(),
{
    let mut j: usize = 0;
    while j < entries.len()
        invariant
            j <= entries.len(),
            find_entry(entry_views(entries@), key@, j as int) == find_entry(
                entry_views(entries@),
                key@,
                0,
            ),
        decreases entries.len() - j,
    {
        if entries[j].key == *key {
            return j;
        }
        j += 1;
    }
    j
}

impl SymbolTable {
    pub fn new() -> (table: SymbolTable)
        ensures
            table@ == TableView::initial(),
    {
        let mut scopes: Vec<Scope> = Vec::new();
        scopes.push(Scope { id: 0, entries: Vec::new() });
        let mut active: Vec<u32> = Vec::new();
        active.push(0);
        let table = SymbolTable { all_scopes: scopes, active_scopes: active };
        assert(table.all_scopes@[0]@.entries =~= Seq::<EntryView>::empty());
        assert(table@.scopes =~= TableView::initial().scopes);
        assert(table@.active =~= TableView::initial().active);
        table
    }

    /// The place of the first scope whose id is `id`.
    fn scope_position(&self, id: u32) -> (i: usize)
        ensures
            i == find_scope(self@.scopes, id, 0),
            i <= self.all_scopes.len(),
    {
        let mut i: usize = 0;
        while i < self.all_scopes.len()
            invariant
                i <= self.all_scopes.len(),
                find_scope(self@.scopes, id, i as int) == find_scope(self@.scopes, id, 0),
            decreases self.all_scopes.len() - i,
        {
            if self.all_scopes[i].id == id {
                return i;
            }
            i += 1;
        }
        i
    }

    /// The place of the first scope that binds `key`.
    fn binding_position(&self, key: &String) -> (i: usize)
        ensures
            i == self@.binding_scope(key@),
            i <= self.all_scopes.len(),
    {
        let mut i: usize = 0;
        while i < self.all_scopes.len()
            invariant
                i <= self.all_scopes.len(),
                find_binding(self@.scopes, key@, i as int) == find_binding(self@.scopes, key@, 0),
            decreases self.all_scopes.len() - i,
        {
            let j = entry_position(&self.all_scopes[i].entries, key);
            if j < self.all_scopes[i].entries.len() {
                return i;
            }
            i += 1;
        }
        i
    }

    /// Makes an empty scope under `scope_id`. A scope that had this id before loses
    /// its entries.
    pub fn create_scope(&mut self, scope_id: u32)
        ensures
            final(self)@ == old(self)@.create_scope(scope_id),
    {
        let i = self.scope_position(scope_id);
        proof {
            lemma_find_scope(self@.scopes, scope_id, 0);
        }
        if i < self.all_scopes.len() {
            self.all_scopes[i].entries = Vec::new();
            assert(self@.scopes =~= old(self)@.create_scope(scope_id).scopes) by {
                assert(self@.scopes[i as int].entries =~= Seq::<EntryView>::empty());
            }
        } else {
            self.all_scopes.push(Scope { id: scope_id, entries: Vec::new() });
            assert(self.all_scopes@[i as int]@.entries =~= Seq::<EntryView>::empty());
            assert(self@.scopes =~= old(self)@.create_scope(scope_id).scopes);
        }
    }

    /// Makes scope `scope_id` the innermost active scope, if it exists.
    pub fn enter_scope(&mut self, scope_id: u32)
        ensures
            final(self)@ == old(self)@.enter_scope(scope_id),
    {
        let i = self.scope_position(scope_id);
        if i < self.all_scopes.len() {
            self.active_scopes.push(scope_id);
        }
    }

    /// Leaves the innermost active scope, unless it is the only active one.
    pub fn exit_scope(&mut self)
        ensures
            final(self)@ == old(self)@.exit_scope(),
    {
        if self.active_scopes.len() > 1 {
            self.active_scopes.pop();
        }
    }

    /// The id of the innermost active scope; 0 where no scope is active.
    pub fn current_scope(&self) -> (id: u32)
        ensures
            id == self@.current_scope(),
    {
        if self.active_scopes.len() > 0 {
            self.active_scopes[self.active_scopes.len() - 1]
        } else {
            0
        }
    }

    /// Binds `symbol` to its name in the innermost active scope, in place of what
    /// the name was bound to there.
    pub fn insert(&mut self, symbol: Symbol)
        ensures
            final(self)@ == old(self)@.insert(symbol@),
    {
        if self.active_scopes.len() == 0 {
            return ;
        }
        let id = self.active_scopes[self.active_scopes.len() - 1];
        let i = self.scope_position(id);
        if i >= self.all_scopes.len() {
            return ;
        }
        let key = symbol.value.clone();
        let j = entry_position(&self.all_scopes[i].entries, &key);
        let ghost before = self.all_scopes@[i as int]@;
        let entry = Entry { key, symbol };
        if j < self.all_scopes[i].entries.len() {
            self.all_scopes[i].entries[j] = entry;
            assert(self.all_scopes@[i as int]@.entries =~= before.bind(symbol@.value, symbol@).entries);
        } else {
            self.all_scopes[i].entries.push(entry);
            assert(self.all_scopes@[i as int]@.entries =~= before.bind(symbol@.value, symbol@).entries);
        }
        assert(self@.scopes =~= old(self)@.insert(symbol@).scopes);
    }
}

impl SymbolTable {
    /// The symbol that `value` is bound to in the innermost active scope that binds
    /// it.
    pub fn lookup(&self, value: &str) -> (r: Option<&Symbol>)
        ensures
            match self@.lookup(value@) {
                Some(symbol) => r is Some && r->0@ == symbol,
                None => r is None,
            },
    {
        let key = String::from_str(value);
        let mut depth: usize = self.active_scopes.len();
        while depth > 0
            invariant
                depth <= self.active_scopes.len(),
                key@ == value@,
                self@.lookup_within(key@, depth as int) == self@.lookup(value@),
            decreases depth,
        {
            let i = self.scope_position(self.active_scopes[depth - 1]);
            if i < self.all_scopes.len() {
                let j = entry_position(&self.all_scopes[i].entries, &key);
                if j < self.all_scopes[i].entries.len() {
                    return Some(&self.all_scopes[i].entries[j].symbol);
                }
            }
            depth -= 1;
        }
        None
    }

    /// Every symbol of every scope, active or not, in the order of the scopes and of
    /// their entries.
    pub fn get_all_symbols(&self) -> (r: Vec<&Symbol>)
        ensures
            r@.len() == self@.all_symbols().len(),
            forall|k: int| 0 <= k < r@.len() ==> (#[trigger] r@[k])@ == self@.all_symbols()[k],
    {
        let mut out: Vec<&Symbol> = Vec::new();
        let mut i: usize = self.all_scopes.len();
        while i > 0
            invariant
                i <= self.all_scopes.len(),
                out@.len() == symbols_from(self@.scopes, i as int).len(),
                forall|k: int|
                    0 <= k < out@.len() ==> (#[trigger] out@[k])@ == symbols_from(
                        self@.scopes,
                        i as int,
                    )[k],
            decreases i,
        {
            i -= 1;
            let entries = &self.all_scopes[i].entries;
            let mut front: Vec<&Symbol> = Vec::new();
            let mut j: usize = 0;
            while j < entries.len()
                invariant
                    j <= entries.len(),
                    front@.len() == j,
                    forall|k: int| 0 <= k < j ==> (#[trigger] front@[k])@ == entries@[k]@.symbol,
                decreases entries.len() - j,
            {
                front.push(&entries[j].symbol);
                j += 1;
            }
            let ghost rest = out@;
            front.append(&mut out);
            out = front;
            assert(out@ =~= out@.subrange(0, entries.len() as int) + rest);
        }
        out
    }

    /// The symbol that `value` is bound to in the first scope that binds it, active
    /// or not, to be changed in place.
    pub fn get_symbol(&mut self, value: &str) -> (r: Option<&mut Symbol>)
        ensures
            match old(self)@.read_symbol(value@) {
                Some(symbol) => r is Some && (*r->0)@ == symbol && final(self)@ == old(
                    self,
                )@.replace_symbol(value@, (*final(r->0))@),
                None => r is None && final(self)@ == old(self)@,
            },
    {
        let key = String::from_str(value);
        let i = self.binding_position(&key);
        if i < self.all_scopes.len() {
            let j = entry_position(&self.all_scopes[i].entries, &key);
            proof {
                lemma_find_binding(self@.scopes, key@, 0);
            }
            let found = &mut self.all_scopes[i].entries[j].symbol;
            proof {
                let ghost after = after_borrow(*self);
                assert(after@.scopes =~= old(self)@.replace_symbol(value@, (*final(found))@).scopes) by {
                    assert(after.all_scopes@[i as int]@.entries =~= old(self)@.scopes[i as int].with_symbol(
                        j as int,
                        (*final(found))@,
                    ).entries);
                }
            }
            Some(found)
        } else {
            None
        }
    }

    /// The symbol that `value` is bound to in the first scope that binds it, active
    /// or not.
    pub fn read_symbol(&self, value: &str) -> (r: Option<&Symbol>)
        ensures
            match self@.read_symbol(value@) {
                Some(symbol) => r is Some && r->0@ == symbol,
                None => r is None,
            },
    {
        let key = String::from_str(value);
        let i = self.binding_position(&key);
        if i < self.all_scopes.len() {
            let j = entry_position(&self.all_scopes[i].entries, &key);
            proof {
                lemma_find_binding(self@.scopes, key@, 0);
            }
            Some(&self.all_scopes[i].entries[j].symbol)
        } else {
            None
        }
    }

    /// Makes the symbol found under `value` a variable of type `value_type` that has
    /// no value yet.
    pub fn update_var_type(&mut self, value: &str, value_type: DataType)
        ensures
            final(self)@ == old(self)@.update_var_type(value@, value_type@),
    {
        if let Some(symbol) = self.get_symbol(value) {
            symbol.kind = SymbolKind::Variable { data_type: Some(value_type), assigned: false };
        }
    }

    /// Marks the variable found under `value` as having a value.
    pub fn update_var_assigned(&mut self, value: &str)
        ensures
            final(self)@ == old(self)@.update_var_assigned(value@),
    {
        if let Some(symbol) = self.get_symbol(value) {
            if let SymbolKind::Variable { data_type, .. } = &symbol.kind {
                let kept = duplicate_optional_type(data_type);
                symbol.kind = SymbolKind::Variable { data_type: kept, assigned: true };
            }
        }
        proof {
            if old(self)@.read_symbol(value@) is Some {
                lemma_replace_same(old(self)@, value@);
            }
        }
    }

    /// The parameter types of the function found under `name`.
    pub fn get_params(&self, name: &str) -> (r: Option<&Vec<DataType>>)
        ensures
            match self@.get_params(name@) {
                Some(types) => r is Some && type_views(r->0@) == types,
                None => r is None,
            },
    {
        if let Some(symbol) = self.read_symbol(name) {
            if let SymbolKind::Function { param_types, .. } = &symbol.kind {
                return Some(param_types);
            }
        }
        None
    }
}

impl Clone for Entry {
    fn clone(&self) -> (r: Entry)
        ensures
            r@ == self@,
    {
        Entry { key: self.key.clone(), symbol: self.symbol.clone() }
    }
}

impl Clone for Scope {
    fn clone(&self) -> (r: Scope)
        ensures
            r@ == self@,
    {
        let mut entries: Vec<Entry> = Vec::new();
        let mut j: usize = 0;
        while j < self.entries.len()
            invariant
                j <= self.entries.len(),
                entries.len() == j,
                forall|k: int| 0 <= k < j ==> entries@[k]@ == self.entries@[k]@,
            decreases self.entries.len() - j,
        {
            entries.push(self.entries[j].clone());
            j += 1;
        }
        let r = Scope { id: self.id, entries };
        assert(r@.entries =~= self@.entries);
        r
    }
}

impl Clone for SymbolTable {
    fn clone(&self) -> (r: SymbolTable)
        ensures
            r@ == self@,
    {
        let mut scopes: Vec<Scope> = Vec::new();
        let mut i: usize = 0;
        while i < self.all_scopes.len()
            invariant
                i <= self.all_scopes.len(),
                scopes.len() == i,
                forall|k: int| 0 <= k < i ==> scopes@[k]@ == self.all_scopes@[k]@,
            decreases self.all_scopes.len() - i,
        {
            scopes.push(self.all_scopes[i].clone());
            i += 1;
        }
        let mut active: Vec<u32> = Vec::new();
        let mut d: usize = 0;
        while d < self.active_scopes.len()
            invariant
                d <= self.active_scopes.len(),
                active.len() == d,
                forall|k: int| 0 <= k < d ==> active@[k] == self.active_scopes@[k],
            decreases self.active_scopes.len() - d,
        {
            active.push(self.active_scopes[d]);
            d += 1;
        }
        let r = SymbolTable { all_scopes: scopes, active_scopes: active };
        assert(r@.scopes =~= self@.scopes);
        assert(r@.active =~= self@.active);
        r
    }
}

} // verus!
