//! Symbol table for Nature language
use vstd::prelude::*;
use crate::ast::{Declaration, FunctionDecl, VariableDecl, ConstantDecl, TypeDecl, StructDecl, InterfaceDecl, ImportDecl, has_attribute, any_attribute_named};
use crate::error::{CompilerError, Result};
use crate::text::{concat3, text_eq};
use super::symbols::{Symbol, FunctionSymbol, VariableSymbol, ConstantSymbol, TypeSymbol, StructSymbol, InterfaceSymbol, ImportSymbol};

verus! {

/// Index of the first entry at or after `i` whose key reads `name`, or the length of `e` when
/// there is none.
pub open spec fn key_index<V>(e: Seq<(String, V)>, name: Seq<char>, i: int) -> int
    decreases e.len() - i,
{
    if i < 0 || i >= e.len() {
        e.len() as int
    } else if e[i].0@ == name {
        i
    } else {
        key_index(e, name, i + 1)
    }
}

/// The value an association list holds under `name`: that of its first entry with that key.
pub open spec fn assoc_get<V>(e: Seq<(String, V)>, name: Seq<char>) -> Option<V> {
    let k = key_index(e, name, 0);
    if 0 <= k < e.len() { Some(e[k].1) } else { None }
}

/// No two entries of an association list have the same key.
pub open spec fn distinct_keys<V>(e: Seq<(String, V)>) -> bool {
    forall|i: int, j: int| 0 <= i < j < e.len() ==> #[trigger] e[i].0@ != #[trigger] e[j].0@
}

/// The symbol a name denotes in a stack of scopes: that of the innermost scope declaring it.
pub open spec fn scopes_lookup(scopes: Seq<Seq<(String, Symbol)>>, name: Seq<char>) -> Option<Symbol>
    decreases scopes.len(),
{
    if scopes.len() == 0 {
        None
    } else {
        match assoc_get(scopes.last(), name) {
            Some(s) => Some(s),
            None => scopes_lookup(scopes.drop_last(), name),
        }
    }
}

/// The number of entries of all the scopes.
pub open spec fn total_count(scopes: Seq<Seq<(String, Symbol)>>) -> nat
    decreases scopes.len(),
{
    if scopes.len() == 0 {
        0
    } else {
        total_count(scopes.drop_last()) + scopes.last().len()
    }
}

/// The message of a symbol declared twice in one scope.
pub open spec fn duplicate_symbol_message(name: Seq<char>) -> Seq<char> {
    "Symbol '"@ + name + "' already declared in current scope"@
}

/// Where the key search from `i` stops: at an entry with the key, or at the end; no entry
/// before it has the key.
pub proof fn lemma_key_index_bounds<V>(e: Seq<(String, V)>, name: Seq<char>, i: int)
    requires
        0 <= i <= e.len(),
    ensures
        i <= key_index(e, name, i) <= e.len(),
        key_index(e, name, i) < e.len() ==> e[key_index(e, name, i)].0@ == name,
        forall|j: int| i <= j < key_index(e, name, i) ==> e[j].0@ != name,
    decreases e.len() - i,
{
    if i < e.len() && e[i].0@ != name {
        lemma_key_index_bounds(e, name, i + 1);
    }
}

proof fn lemma_key_index_push<V>(e: Seq<(String, V)>, x: (String, V), name: Seq<char>, i: int)
    requires
        0 <= i <= e.len(),
    ensures
        key_index(e, name, i) < e.len() ==> key_index(e.push(x), name, i) == key_index(e, name, i),
        key_index(e, name, i) == e.len() && x.0@ == name ==> key_index(e.push(x), name, i) == e.len(),
        key_index(e, name, i) == e.len() && x.0@ != name ==> key_index(e.push(x), name, i) == e.len() + 1,
    decreases e.len() - i,
{
    if i < e.len() {
        if e[i].0@ != name {
            lemma_key_index_push(e, x, name, i + 1);
        }
    } else if x.0@ != name {
        assert(key_index(e.push(x), name, i + 1) == e.len() + 1);
    }
}

/// Adding an entry under a new key makes the list hold it under that key, and leaves what it
/// holds under any other key as it was.
pub proof fn lemma_assoc_push<V>(e: Seq<(String, V)>, key: String, v: V, name: Seq<char>)
    requires
        assoc_get(e, key@) is None,
    ensures
        assoc_get(e.push((key, v)), key@) == Some(v),
        name != key@ ==> assoc_get(e.push((key, v)), name) == assoc_get(e, name),
{
    lemma_key_index_bounds(e, key@, 0);
    lemma_key_index_push(e, (key, v), key@, 0);
    lemma_key_index_bounds(e, name, 0);
    lemma_key_index_push(e, (key, v), name, 0);
}

/// Replacing the first entry under a key sets what the list holds under that key.
pub proof fn lemma_assoc_set<V>(e: Seq<(String, V)>, i: int, x: (String, V))
    requires
        0 <= i < e.len(),
        key_index(e, x.0@, 0) == i,
    ensures
        assoc_get(e.update(i, x), x.0@) == Some(x.1),
{
    lemma_key_index_bounds(e, x.0@, 0);
    lemma_key_index_prefix_same(e, e.update(i, x), x.0@, 0, i);
}

proof fn lemma_key_index_prefix_same<V>(e: Seq<(String, V)>, f: Seq<(String, V)>, name: Seq<char>, j: int, i: int)
    requires
        0 <= j <= i < e.len(),
        e.len() == f.len(),
        forall|k: int| 0 <= k < i ==> #[trigger] f[k] == e[k],
        forall|k: int| j <= k < i ==> e[k].0@ != name,
        f[i].0@ == name,
    ensures
        key_index(f, name, j) == i,
    decreases i - j,
{
    if j < i {
        lemma_key_index_prefix_same(e, f, name, j + 1, i);
    }
}

/// Adding an entry under a key the list does not hold keeps the keys distinct.
pub proof fn lemma_push_keeps_distinct<V>(e: Seq<(String, V)>, x: (String, V))
    requires
        distinct_keys(e),
        assoc_get(e, x.0@) is None,
    ensures
        distinct_keys(e.push(x)),
{
    lemma_key_index_bounds(e, x.0@, 0);
    assert forall|i: int, j: int| 0 <= i < j < e.push(x).len() implies
        #[trigger] e.push(x)[i].0@ != #[trigger] e.push(x)[j].0@ by {
        if j == e.len() {
            assert(e[i].0@ != x.0@);
        }
    }
}

/// Symbol table for managing symbols in different scopes
pub struct SymbolTable {
    /// Global symbols
    global_symbols: Vec<(String, Symbol)>,
    /// The scopes, outermost first
    current_scope: Vec<Vec<(String, Symbol)>>,
    /// Current scope level
    current_level: usize,
}

impl SymbolTable {
    /// The scopes, outermost first, each as the list of its entries in declaration order.
    pub closed spec fn scopes(&self) -> Seq<Seq<(String, Symbol)>> {
        self.current_scope@.map_values(|s: Vec<(String, Symbol)>| s@)
    }

    /// The global symbols.
    pub closed spec fn globals(&self) -> Seq<(String, Symbol)> {
        self.global_symbols@
    }

    /// The current scope level.
    pub closed spec fn level(&self) -> nat {
        self.current_level as nat
    }

    /// The table's invariant: one scope per level up to the current one, and no name twice
    /// in one scope.
    pub open spec fn wf(&self) -> bool {
        &&& self.scopes().len() == self.level() + 1
        &&& forall|i: int| 0 <= i < self.scopes().len() ==> distinct_keys(#[trigger] self.scopes()[i])
        &&& distinct_keys(self.globals())
    }

    /// The entries of the current scope.
    pub open spec fn current(&self) -> Seq<(String, Symbol)> {
        self.scopes()[self.level() as int]
    }

    /// The symbol `name` denotes: that of the innermost scope declaring it, else the global one.
    pub open spec fn spec_lookup(&self, name: Seq<char>) -> Option<Symbol> {
        match scopes_lookup(self.scopes(), name) {
            Some(s) => Some(s),
            None => assoc_get(self.globals(), name),
        }
    }

    /// `self` is `old` with `entry` added to the current scope.
    pub open spec fn added(self, old: SymbolTable, entry: (String, Symbol)) -> bool {
        &&& self.level() == old.level()
        &&& self.globals() == old.globals()
        &&& self.scopes() == old.scopes().update(old.level() as int, old.current().push(entry))
    }

    /// Create a new symbol table
    pub fn new() -> (res: Self)
        ensures
            res.wf(),
            res.level() == 0,
            res.scopes() == seq![Seq::<(String, Symbol)>::empty()],
            res.globals().len() == 0,
    {
        let mut scopes: Vec<Vec<(String, Symbol)>> = Vec::new();
        scopes.push(Vec::new());
        let res = SymbolTable { global_symbols: Vec::new(), current_scope: scopes, current_level: 0 };
        assert(res.scopes() =~= seq![Seq::<(String, Symbol)>::empty()]);
        res
    }

    /// Enter a new scope
    pub fn enter_scope(&mut self)
        requires
            old(self).wf(),
        ensures
            final(self).wf(),
            final(self).level() == old(self).level() + 1,
            final(self).scopes() == old(self).scopes().push(Seq::empty()),
            final(self).globals() == old(self).globals(),
    {
        let n = self.current_scope.len();
        assert(n == self.current_level + 1);
        self.current_level = self.current_level + 1;
        self.current_scope.push(Vec::new());
        assert(self.scopes() =~= old(self).scopes().push(Seq::empty()));
    }

    /// Exit the current scope; at the outermost level nothing changes
    pub fn exit_scope(&mut self)
        requires
            old(self).wf(),
        ensures
            final(self).wf(),
            old(self).level() > 0 ==> final(self).level() == old(self).level() - 1
                && final(self).scopes() == old(self).scopes().drop_last(),
            old(self).level() == 0 ==> *final(self) == *old(self),
            final(self).globals() == old(self).globals(),
    {
        if self.current_level > 0 {
            self.current_scope.pop();
            self.current_level = self.current_level - 1;
            assert(self.scopes() =~= old(self).scopes().drop_last());
        }
    }

    /// Index of the entry of the current scope named `name`.
    fn find_current(&self, name: &str) -> (res: Option<usize>)
        requires
            self.wf(),
        ensures
            match res {
                Some(i) => i < self.current().len() && key_index(self.current(), name@, 0) == i,
                None => key_index(self.current(), name@, 0) == self.current().len(),
            },
    {
        let scope = &self.current_scope[self.current_level];
        let ghost e = scope@;
        assert(e == self.current());
        let mut i: usize = 0;
        while i < scope.len()
            invariant
                e == scope@,
                e == self.current(),
                i <= e.len(),
                key_index(e, name@, 0) == key_index(e, name@, i as int),
            decreases e.len() - i,
        {
            if text_eq(scope[i].0.as_str(), name) {
                return Some(i);
            }
            i = i + 1;
        }
        None
    }

    /// Insert a symbol into the current scope, unless its name is declared there already
    pub fn insert_symbol(&mut self, name: String, symbol: Symbol) -> (res: Result<()>)
        requires
            old(self).wf(),
        ensures
            final(self).wf(),
            res is Err <==> assoc_get(old(self).current(), name@) is Some,
            res is Err ==> *final(self) == *old(self) && (res->Err_0 matches CompilerError::Semantic { line, column, message }
                && line == symbol.spec_location().line && column == symbol.spec_location().column
                && message@ == duplicate_symbol_message(name@)),
            res is Ok ==> final(self).added(*old(self), (name, symbol)),
    {
        match self.find_current(name.as_str()) {
            Some(_) => {
                let loc = symbol.location();
                let message = concat3("Symbol '", name.as_str(), "' already declared in current scope");
                Err(CompilerError::semantic(loc.line, loc.column, message.as_str()))
            },
            None => {
                let level = self.current_level;
                let ghost old_scopes = self.scopes();
                let ghost cur = self.current();
                let mut scope = match self.current_scope.pop() {
                    Some(s) => s,
                    None => Vec::new(),
                };
                proof {
                    assert(scope@ == cur);
                }
                scope.push((name, symbol));
                self.current_scope.push(scope);
                proof {
                    assert(self.scopes() =~= old_scopes.update(level as int, cur.push((name, symbol))));
                    lemma_key_index_bounds(cur, name@, 0);
                    assert forall|i: int, j: int| 0 <= i < j < cur.push((name, symbol)).len() implies
                        #[trigger] cur.push((name, symbol))[i].0@ != #[trigger] cur.push((name, symbol))[j].0@ by {
                        if j == cur.len() {
                            assert(cur[i].0@ != name@);
                        } else {
                            assert(old_scopes[level as int] == cur);
                        }
                    }
                    assert forall|i: int| 0 <= i < self.scopes().len() implies distinct_keys(#[trigger] self.scopes()[i]) by {
                        if i != level {
                            assert(self.scopes()[i] == old_scopes[i]);
                        }
                    }
                }
                Ok(())
            },
        }
    }

    /// Insert a function symbol
    pub fn insert_function(&mut self, func: &FunctionDecl) -> (res: Result<()>)
        requires
            old(self).wf(),
        ensures
            final(self).wf(),
            res is Err <==> assoc_get(old(self).current(), func.name@) is Some,
            res is Err ==> *final(self) == *old(self) && (res->Err_0 matches CompilerError::Semantic { line, column, message }
                && line == func.location.line && column == func.location.column
                && message@ == duplicate_symbol_message(func.name@)),
            res is Ok ==> final(self).added(*old(self), final(self).current().last())
                && final(self).current().last().0 == func.name
                && (final(self).current().last().1 matches Symbol::Function(s)
                && s.name == func.name && s.declaration.location == func.location
                && s.scope_level == old(self).level()
                && s.exported == has_attribute(func.attributes@, "export"@)),
    {
        let exported = self.is_exported_function(func);
        let symbol = Symbol::Function(FunctionSymbol {
            name: func.name.clone(),
            declaration: func.clone(),
            scope_level: self.current_level,
            exported,
        });
        self.insert_symbol(func.name.clone(), symbol)
    }

    /// Insert a variable symbol
    pub fn insert_variable(&mut self, var: &VariableDecl) -> (res: Result<()>)
        requires
            old(self).wf(),
        ensures
            final(self).wf(),
            res is Err <==> assoc_get(old(self).current(), var.name@) is Some,
            res is Err ==> *final(self) == *old(self) && (res->Err_0 matches CompilerError::Semantic { line, column, message }
                && line == var.location.line && column == var.location.column
                && message@ == duplicate_symbol_message(var.name@)),
            res is Ok ==> final(self).added(*old(self), final(self).current().last())
                && final(self).current().last().0 == var.name
                && (final(self).current().last().1 matches Symbol::Variable(s)
                && s.name == var.name && s.declaration.location == var.location
                && s.declaration.mutable == var.mutable
                && s.scope_level == old(self).level() && !s.exported),
    {
        let symbol = Symbol::Variable(VariableSymbol {
            name: var.name.clone(),
            declaration: var.clone(),
            scope_level: self.current_level,
            exported: self.is_exported_variable(var),
        });
        self.insert_symbol(var.name.clone(), symbol)
    }

    /// Insert a constant symbol
    pub fn insert_constant(&mut self, const_: &ConstantDecl) -> (res: Result<()>)
        requires
            old(self).wf(),
        ensures
            final(self).wf(),
            res is Err <==> assoc_get(old(self).current(), const_.name@) is Some,
            res is Err ==> *final(self) == *old(self) && (res->Err_0 matches CompilerError::Semantic { line, column, message }
                && line == const_.location.line && column == const_.location.column
                && message@ == duplicate_symbol_message(const_.name@)),
            res is Ok ==> final(self).added(*old(self), final(self).current().last())
                && final(self).current().last().0 == const_.name
                && (final(self).current().last().1 matches Symbol::Constant(s)
                && s.name == const_.name && s.declaration.location == const_.location
                && s.scope_level == old(self).level() && !s.exported),
    {
        let symbol = Symbol::Constant(ConstantSymbol {
            name: const_.name.clone(),
            declaration: const_.clone(),
            scope_level: self.current_level,
            exported: self.is_exported_constant(const_),
        });
        self.insert_symbol(const_.name.clone(), symbol)
    }

    /// Insert a type symbol
    pub fn insert_type(&mut self, type_: &TypeDecl) -> (res: Result<()>)
        requires
            old(self).wf(),
        ensures
            final(self).wf(),
            res is Err <==> assoc_get(old(self).current(), type_.name@) is Some,
            res is Err ==> *final(self) == *old(self) && (res->Err_0 matches CompilerError::Semantic { line, column, message }
                && line == type_.location.line && column == type_.location.column
                && message@ == duplicate_symbol_message(type_.name@)),
            res is Ok ==> final(self).added(*old(self), final(self).current().last())
                && final(self).current().last().0 == type_.name
                && (final(self).current().last().1 matches Symbol::Type(s)
                && s.name == type_.name && s.declaration.location == type_.location
                && s.scope_level == old(self).level() && !s.exported),
    {
        let symbol = Symbol::Type(TypeSymbol {
            name: type_.name.clone(),
            declaration: type_.clone(),
            scope_level: self.current_level,
            exported: self.is_exported_type(type_),
        });
        self.insert_symbol(type_.name.clone(), symbol)
    }

    /// Insert a struct symbol
    pub fn insert_struct(&mut self, struct_: &StructDecl) -> (res: Result<()>)
        requires
            old(self).wf(),
        ensures
            final(self).wf(),
            res is Err <==> assoc_get(old(self).current(), struct_.name@) is Some,
            res is Err ==> *final(self) == *old(self) && (res->Err_0 matches CompilerError::Semantic { line, column, message }
                && line == struct_.location.line && column == struct_.location.column
                && message@ == duplicate_symbol_message(struct_.name@)),
            res is Ok ==> final(self).added(*old(self), final(self).current().last())
                && final(self).current().last().0 == struct_.name
                && (final(self).current().last().1 matches Symbol::Struct(s)
                && s.name == struct_.name && s.declaration.location == struct_.location
                && s.scope_level == old(self).level() && !s.exported),
    {
        let symbol = Symbol::Struct(StructSymbol {
            name: struct_.name.clone(),
            declaration: struct_.clone(),
            scope_level: self.current_level,
            exported: self.is_exported_struct(struct_),
        });
        self.insert_symbol(struct_.name.clone(), symbol)
    }

    /// Insert an interface symbol
    pub fn insert_interface(&mut self, interface: &InterfaceDecl) -> (res: Result<()>)
        requires
            old(self).wf(),
        ensures
            final(self).wf(),
            res is Err <==> assoc_get(old(self).current(), interface.name@) is Some,
            res is Err ==> *final(self) == *old(self) && (res->Err_0 matches CompilerError::Semantic { line, column, message }
                && line == interface.location.line && column == interface.location.column
                && message@ == duplicate_symbol_message(interface.name@)),
            res is Ok ==> final(self).added(*old(self), final(self).current().last())
                && final(self).current().last().0 == interface.name
                && (final(self).current().last().1 matches Symbol::Interface(s)
                && s.name == interface.name && s.declaration.location == interface.location
                && s.scope_level == old(self).level() && !s.exported),
    {
        let symbol = Symbol::Interface(InterfaceSymbol {
            name: interface.name.clone(),
            declaration: interface.clone(),
            scope_level: self.current_level,
            exported: self.is_exported_interface(interface),
        });
        self.insert_symbol(interface.name.clone(), symbol)
    }

    /// Insert an import symbol, named by its path
    pub fn insert_import(&mut self, import: &ImportDecl) -> (res: Result<()>)
        requires
            old(self).wf(),
        ensures
            final(self).wf(),
            res is Err <==> assoc_get(old(self).current(), import.path@) is Some,
            res is Err ==> *final(self) == *old(self) && (res->Err_0 matches CompilerError::Semantic { line, column, message }
                && line == import.location.line && column == import.location.column
                && message@ == duplicate_symbol_message(import.path@)),
            res is Ok ==> final(self).added(*old(self), final(self).current().last())
                && final(self).current().last().0 == import.path
                && (final(self).current().last().1 matches Symbol::Import(s)
                && s.path == import.path && s.declaration.location == import.location
                && s.scope_level == old(self).level() && !s.exported),
    {
        let symbol = Symbol::Import(ImportSymbol {
            path: import.path.clone(),
            declaration: import.clone(),
            scope_level: self.current_level,
            exported: self.is_exported_import(import),
        });
        self.insert_symbol(import.path.clone(), symbol)
    }

    /// Look up a symbol by name, from the innermost scope outwards, then among the globals
    pub fn lookup(&self, name: &str) -> (res: Option<&Symbol>)
        requires
            self.wf(),
        ensures
            match res {
                Some(s) => self.spec_lookup(name@) == Some(*s),
                None => self.spec_lookup(name@) is None,
            },
    {
        let ghost scopes = self.scopes();
        let mut k: usize = self.current_scope.len();
        assert(scopes.take(k as int) =~= scopes);
        while k > 0
            invariant
                k <= self.current_scope@.len(),
                scopes == self.scopes(),
                scopes_lookup(scopes, name@) == scopes_lookup(scopes.take(k as int), name@),
            decreases k,
        {
            let scope = &self.current_scope[k - 1];
            proof {
                assert(scopes.take(k as int).last() == scope@);
                assert(scopes.take(k as int).drop_last() =~= scopes.take(k - 1));
            }
            match find_entry(scope, name) {
                Some(i) => {
                    return Some(&scope[i].1);
                },
                None => {},
            }
            k = k - 1;
        }
        proof {
            assert(scopes.take(0) =~= Seq::<Seq<(String, Symbol)>>::empty());
            assert(scopes.take(scopes.len() as int) =~= scopes);
        }
        match find_entry(&self.global_symbols, name) {
            Some(i) => Some(&self.global_symbols[i].1),
            None => None,
        }
    }

    /// Look up a symbol in the current scope only
    pub fn lookup_current_scope(&self, name: &str) -> (res: Option<&Symbol>)
        requires
            self.wf(),
        ensures
            match res {
                Some(s) => assoc_get(self.current(), name@) == Some(*s),
                None => assoc_get(self.current(), name@) is None,
            },
    {
        let scope = &self.current_scope[self.current_level];
        match find_entry(scope, name) {
            Some(i) => Some(&scope[i].1),
            None => None,
        }
    }

    /// Look up a function symbol
    pub fn lookup_function(&self, name: &str) -> (res: Option<&FunctionSymbol>)
        requires
            self.wf(),
        ensures
            match res {
                Some(f) => self.spec_lookup(name@) == Some(Symbol::Function(*f)),
                None => !(self.spec_lookup(name@) matches Some(Symbol::Function(_))),
            },
    {
        match self.lookup(name) {
            Some(Symbol::Function(f)) => Some(f),
            _ => None,
        }
    }

    /// Look up a variable symbol
    pub fn lookup_variable(&self, name: &str) -> (res: Option<&VariableSymbol>)
        requires
            self.wf(),
        ensures
            match res {
                Some(v) => self.spec_lookup(name@) == Some(Symbol::Variable(*v)),
                None => !(self.spec_lookup(name@) matches Some(Symbol::Variable(_))),
            },
    {
        match self.lookup(name) {
            Some(Symbol::Variable(v)) => Some(v),
            _ => None,
        }
    }

    /// Look up a constant symbol
    pub fn lookup_constant(&self, name: &str) -> (res: Option<&ConstantSymbol>)
        requires
            self.wf(),
        ensures
            match res {
                Some(c) => self.spec_lookup(name@) == Some(Symbol::Constant(*c)),
                None => !(self.spec_lookup(name@) matches Some(Symbol::Constant(_))),
            },
    {
        match self.lookup(name) {
            Some(Symbol::Constant(c)) => Some(c),
            _ => None,
        }
    }

    /// Look up a type symbol
    pub fn lookup_type(&self, name: &str) -> (res: Option<&TypeSymbol>)
        requires
            self.wf(),
        ensures
            match res {
                Some(t) => self.spec_lookup(name@) == Some(Symbol::Type(*t)),
                None => !(self.spec_lookup(name@) matches Some(Symbol::Type(_))),
            },
    {
        match self.lookup(name) {
            Some(Symbol::Type(t)) => Some(t),
            _ => None,
        }
    }

    /// Look up a struct symbol
    pub fn lookup_struct(&self, name: &str) -> (res: Option<&StructSymbol>)
        requires
            self.wf(),
        ensures
            match res {
                Some(s) => self.spec_lookup(name@) == Some(Symbol::Struct(*s)),
                None => !(self.spec_lookup(name@) matches Some(Symbol::Struct(_))),
            },
    {
        match self.lookup(name) {
            Some(Symbol::Struct(s)) => Some(s),
            _ => None,
        }
    }

    /// Look up an interface symbol
    pub fn lookup_interface(&self, name: &str) -> (res: Option<&InterfaceSymbol>)
        requires
            self.wf(),
        ensures
            match res {
                Some(i) => self.spec_lookup(name@) == Some(Symbol::Interface(*i)),
                None => !(self.spec_lookup(name@) matches Some(Symbol::Interface(_))),
            },
    {
        match self.lookup(name) {
            Some(Symbol::Interface(i)) => Some(i),
            _ => None,
        }
    }

    /// Look up an import symbol
    pub fn lookup_import(&self, name: &str) -> (res: Option<&ImportSymbol>)
        requires
            self.wf(),
        ensures
            match res {
                Some(i) => self.spec_lookup(name@) == Some(Symbol::Import(*i)),
                None => !(self.spec_lookup(name@) matches Some(Symbol::Import(_))),
            },
    {
        match self.lookup(name) {
            Some(Symbol::Import(i)) => Some(i),
            _ => None,
        }
    }

    /// Get all symbols in the current scope
    pub fn current_scope_symbols(&self) -> (res: &Vec<(String, Symbol)>)
        requires
            self.wf(),
        ensures
            res@ == self.current(),
    {
        &self.current_scope[self.current_level]
    }

    /// Get all global symbols
    pub fn global_symbols(&self) -> (res: &Vec<(String, Symbol)>)
        ensures
            res@ == self.globals(),
    {
        &self.global_symbols
    }

    /// Get the current scope level
    pub fn current_level(&self) -> (res: usize)
        ensures
            res == self.level(),
    {
        self.current_level
    }

    /// Check if the symbol table is empty
    pub fn is_empty(&self) -> (res: bool)
        ensures
            res == (self.globals().len() == 0
                && forall|i: int| 0 <= i < self.scopes().len() ==> #[trigger] self.scopes()[i].len() == 0),
    {
        if self.global_symbols.len() > 0 {
            return false;
        }
        let mut i: usize = 0;
        while i < self.current_scope.len()
            invariant
                i <= self.current_scope@.len(),
                self.scopes().len() == self.current_scope@.len(),
                forall|k: int| 0 <= k < i ==> #[trigger] self.scopes()[k].len() == 0,
            decreases self.current_scope@.len() - i,
        {
            if self.current_scope[i].len() > 0 {
                assert(self.scopes()[i as int] == self.current_scope@[i as int]@);
                return false;
            }
            assert(self.scopes()[i as int] == self.current_scope@[i as int]@);
            i = i + 1;
        }
        true
    }

    /// Get the number of symbols in the current scope
    pub fn current_scope_size(&self) -> (res: usize)
        requires
            self.wf(),
        ensures
            res == self.current().len(),
    {
        self.current_scope[self.current_level].len()
    }

    /// Get the total number of symbols
    pub fn total_symbols(&self) -> (res: usize)
        requires
            self.globals().len() + total_count(self.scopes()) <= usize::MAX,
        ensures
            res == self.globals().len() + total_count(self.scopes()),
    {
        let ghost scopes = self.scopes();
        let mut sum: usize = 0;
        let mut i: usize = 0;
        while i < self.current_scope.len()
            invariant
                i <= self.current_scope@.len(),
                scopes == self.scopes(),
                scopes.len() == self.current_scope@.len(),
                sum == total_count(scopes.take(i as int)),
                self.globals().len() + total_count(scopes) <= usize::MAX,
            decreases self.current_scope@.len() - i,
        {
            proof {
                assert(scopes.take(i + 1).drop_last() =~= scopes.take(i as int));
                lemma_total_count_prefix(scopes, i + 1);
            }
            sum = sum + self.current_scope[i].len();
            i = i + 1;
        }
        proof {
            assert(scopes.take(scopes.len() as int) =~= scopes);
        }
        self.global_symbols.len() + sum
    }

    /// Check if a declaration is exported: a function carrying an `export` attribute
    pub fn is_exported(&self, decl: &Declaration) -> (res: bool)
        ensures
            res == (decl matches Declaration::Function(f) && has_attribute(f.attributes@, "export"@)),
    {
        match decl {
            Declaration::Function(func) => self.is_exported_function(func),
            _ => false,
        }
    }

    /// Check if a function declaration is exported
    fn is_exported_function(&self, func: &FunctionDecl) -> (res: bool)
        ensures
            res == has_attribute(func.attributes@, "export"@),
    {
        any_attribute_named(&func.attributes, "export")
    }

    /// Variables are not exported
    fn is_exported_variable(&self, var: &VariableDecl) -> (res: bool)
        ensures
            !res,
    {
        false
    }

    /// Constants are not exported
    fn is_exported_constant(&self, const_: &ConstantDecl) -> (res: bool)
        ensures
            !res,
    {
        false
    }

    /// Types are not exported
    fn is_exported_type(&self, type_: &TypeDecl) -> (res: bool)
        ensures
            !res,
    {
        false
    }

    /// Structs are not exported
    fn is_exported_struct(&self, struct_: &StructDecl) -> (res: bool)
        ensures
            !res,
    {
        false
    }

    /// Interfaces are not exported
    fn is_exported_interface(&self, interface: &InterfaceDecl) -> (res: bool)
        ensures
            !res,
    {
        false
    }

    /// Imports are not exported
    fn is_exported_import(&self, import: &ImportDecl) -> (res: bool)
        ensures
            !res,
    {
        false
    }
}

/// Index of the first entry of `e` whose key reads `name`.
pub fn find_entry<V>(e: &Vec<(String, V)>, name: &str) -> (res: Option<usize>)
    ensures
        match res {
            Some(i) => i < e@.len() && key_index(e@, name@, 0) == i && assoc_get(e@, name@) == Some(e@[i as int].1)
                && e@[i as int].0@ == name@,
            None => key_index(e@, name@, 0) == e@.len() && assoc_get(e@, name@) is None,
        },
{
    let mut i: usize = 0;
    while i < e.len()
        invariant
            i <= e@.len(),
            key_index(e@, name@, 0) == key_index(e@, name@, i as int),
        decreases e@.len() - i,
    {
        if text_eq(e[i].0.as_str(), name) {
            return Some(i);
        }
        i = i + 1;
    }
    None
}

proof fn lemma_total_count_prefix(scopes: Seq<Seq<(String, Symbol)>>, i: int)
    requires
        0 < i <= scopes.len(),
    ensures
        total_count(scopes.take(i)) == total_count(scopes.take(i - 1)) + scopes[i - 1].len(),
        total_count(scopes.take(i)) <= total_count(scopes),
    decreases scopes.len() - i,
{
    assert(scopes.take(i).drop_last() =~= scopes.take(i - 1));
    if i < scopes.len() {
        lemma_total_count_prefix(scopes, i + 1);
    } else {
        assert(scopes.take(i) =~= scopes);
    }
}

/// A symbol added to the current scope is what its name then denotes, and the names of all
/// other symbols keep denoting what they did.
pub proof fn lemma_lookup_after_insert(t0: SymbolTable, t1: SymbolTable, entry: (String, Symbol), other: Seq<char>)
    requires
        t0.wf(),
        assoc_get(t0.current(), entry.0@) is None,
        t1.added(t0, entry),
    ensures
        t1.spec_lookup(entry.0@) == Some(entry.1),
        other != entry.0@ ==> t1.spec_lookup(other) == t0.spec_lookup(other),
{
    let s0 = t0.scopes();
    let s1 = t1.scopes();
    lemma_assoc_push(t0.current(), entry.0, entry.1, other);
    assert(s1.last() == t0.current().push(entry));
    assert(s1.drop_last() =~= s0.drop_last());
}

/// A name added to the current scope cannot be added to it again.
pub proof fn lemma_insert_twice_rejected(t0: SymbolTable, t1: SymbolTable, entry: (String, Symbol))
    requires
        t0.wf(),
        assoc_get(t0.current(), entry.0@) is None,
        t1.added(t0, entry),
    ensures
        assoc_get(t1.current(), entry.0@) is Some,
{
    lemma_assoc_push(t0.current(), entry.0, entry.1, entry.0@);
}

/// Leaving a scope that was entered, whatever was declared in it meanwhile, brings back the
/// scopes as they were; so every name denotes again what it denoted before.
pub proof fn lemma_exit_restores(
    t0: SymbolTable,
    t1: SymbolTable,
    t2: SymbolTable,
    t3: SymbolTable,
    inner: Seq<(String, Symbol)>,
    name: Seq<char>,
)
    requires
        t0.wf(),
        t1.scopes() == t0.scopes().push(Seq::empty()),
        t1.globals() == t0.globals(),
        t2.scopes() == t1.scopes().update(t1.scopes().len() - 1, inner),
        t2.globals() == t1.globals(),
        t3.scopes() == t2.scopes().drop_last(),
        t3.globals() == t2.globals(),
    ensures
        t3.scopes() == t0.scopes(),
        t3.spec_lookup(name) == t0.spec_lookup(name),
{
    assert(t3.scopes() =~= t0.scopes());
}

/// A name declared in an inner scope hides the same name of the scopes around it.
pub proof fn lemma_inner_shadows(t: SymbolTable, name: Seq<char>)
    requires
        t.wf(),
        assoc_get(t.current(), name) is Some,
    ensures
        t.spec_lookup(name) == assoc_get(t.current(), name),
{
}

impl Default for SymbolTable {
    fn default() -> (res: Self)
        ensures
            res.wf(),
            res.level() == 0,
            res.scopes() == seq![Seq::<(String, Symbol)>::empty()],
            res.globals().len() == 0,
    {
        SymbolTable::new()
    }
}

} // verus!
