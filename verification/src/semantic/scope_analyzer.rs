//! Scope analysis for Nature language
use vstd::prelude::*;
use crate::ast::{Parameter, Program, Declaration, FunctionDecl, VariableDecl, ConstantDecl, TypeDecl, StructDecl, InterfaceDecl, ImportDecl, ImplDecl, Block, Type, StructType, InterfaceType};
use crate::ast::stmt::{Statement, VariableDeclStmt, ConstantDeclStmt, BlockStmt, IfStmt, ForStmt, WhileStmt, MatchStmt, TryStmt, MatchArmStmt, CatchHandlerStmt};
use crate::error::{CompilerError, Location, Result};
use crate::text::concat3;
use super::symbol_table::{assoc_get, distinct_keys, find_entry, lemma_assoc_push};

verus! {

/// Scope information
#[derive(Debug)]
pub struct Scope {
    /// Scope level
    pub level: usize,
    /// Parent scope (if any)
    pub parent: Option<usize>,
    /// Variables declared in this scope, in declaration order
    pub variables: Vec<(String, VariableInfo)>,
    /// Functions declared in this scope, in declaration order
    pub functions: Vec<(String, FunctionInfo)>,
    /// Types declared in this scope, in declaration order
    pub types: Vec<(String, TypeInfo)>,
    /// Scope start location
    pub start_location: Location,
    /// Scope end location
    pub end_location: Location,
}

/// Variable information
#[derive(Debug)]
pub struct VariableInfo {
    /// Variable name
    pub name: String,
    /// Variable type
    pub var_type: Option<Type>,
    /// Is mutable
    pub mutable: bool,
    /// Declaration location
    pub location: Location,
    /// Scope level
    pub scope_level: usize,
}

/// Function information
#[derive(Debug)]
pub struct FunctionInfo {
    /// Function name
    pub name: String,
    /// Function declaration
    pub declaration: FunctionDecl,
    /// Declaration location
    pub location: Location,
    /// Scope level
    pub scope_level: usize,
}

/// Type information
#[derive(Debug)]
pub struct TypeInfo {
    /// Type name
    pub name: String,
    /// Type declaration
    pub declaration: TypeDecl,
    /// Declaration location
    pub location: Location,
    /// Scope level
    pub scope_level: usize,
}

/// The variable `name` denotes from scope `id`: that of the nearest enclosing scope declaring it.
pub open spec fn variable_in(scopes: Seq<Scope>, id: int, name: Seq<char>) -> Option<VariableInfo>
    decreases id,
{
    if id < 0 || id >= scopes.len() {
        None
    } else {
        match assoc_get(scopes[id].variables@, name) {
            Some(v) => Some(v),
            None => match scopes[id].parent {
                Some(p) => if 0 <= p < id { variable_in(scopes, p as int, name) } else { None },
                None => None,
            },
        }
    }
}

/// The function `name` denotes from scope `id`.
pub open spec fn function_in(scopes: Seq<Scope>, id: int, name: Seq<char>) -> Option<FunctionInfo>
    decreases id,
{
    if id < 0 || id >= scopes.len() {
        None
    } else {
        match assoc_get(scopes[id].functions@, name) {
            Some(v) => Some(v),
            None => match scopes[id].parent {
                Some(p) => if 0 <= p < id { function_in(scopes, p as int, name) } else { None },
                None => None,
            },
        }
    }
}

/// The type `name` denotes from scope `id`.
pub open spec fn type_in(scopes: Seq<Scope>, id: int, name: Seq<char>) -> Option<TypeInfo>
    decreases id,
{
    if id < 0 || id >= scopes.len() {
        None
    } else {
        match assoc_get(scopes[id].types@, name) {
            Some(v) => Some(v),
            None => match scopes[id].parent {
                Some(p) => if 0 <= p < id { type_in(scopes, p as int, name) } else { None },
                None => None,
            },
        }
    }
}

/// A scope's shape: its parent comes before it and its level is one more than its parent's.
pub open spec fn scope_ok(scopes: Seq<Scope>, i: int) -> bool {
    let s = scopes[i];
    &&& match s.parent {
        Some(p) => p < i && s.level == scopes[p as int].level + 1,
        None => s.level == 0,
    }
    &&& s.level <= i
    &&& distinct_keys(s.variables@)
    &&& distinct_keys(s.functions@)
    &&& distinct_keys(s.types@)
}

/// `b` is `a` with other variables, functions or types declared in it.
pub open spec fn same_frame(a: Scope, b: Scope) -> bool {
    &&& a.level == b.level
    &&& a.parent == b.parent
    &&& a.start_location == b.start_location
    &&& a.end_location == b.end_location
}

/// The message of a name declared twice in one scope.
pub open spec fn already_declared_message(what: Seq<char>, name: Seq<char>) -> Seq<char> {
    what + name + "' already declared in current scope"@
}

/// The names an association list holds.
pub open spec fn names_of<V>(e: Seq<(String, V)>) -> Set<Seq<char>> {
    Set::new(|n: Seq<char>| assoc_get(e, n) is Some)
}

/// The names of the variables, functions and types a scope declares.
pub open spec fn scope_names(s: Scope) -> (Set<Seq<char>>, Set<Seq<char>>, Set<Seq<char>>) {
    (names_of(s.variables@), names_of(s.functions@), names_of(s.types@))
}

/// No names at all: those of a scope that declares nothing.
pub open spec fn no_names() -> (Set<Seq<char>>, Set<Seq<char>>, Set<Seq<char>>) {
    (Set::empty(), Set::empty(), Set::empty())
}

/// `names` with `n` declared too; `None` when `n` is among them already.
pub open spec fn declare(names: Set<Seq<char>>, n: Seq<char>) -> Option<Set<Seq<char>>> {
    if names.contains(n) { None } else { Some(names.insert(n)) }
}

/// The variable names of a scope once `s` is analyzed in it, `vs` declared there before; `None`
/// when the statement declares a name twice in one scope. Blocks, `for` loops and catch
/// handlers have scopes of their own.
pub open spec fn stmt_scoped(vs: Set<Seq<char>>, s: Statement) -> Option<Set<Seq<char>>>
    decreases s,
{
    match s {
        Statement::VariableDecl(v) => declare(vs, v.name@),
        Statement::ConstantDecl(c) => declare(vs, c.name@),
        Statement::Block(b) => if stmts_scoped(Set::empty(), b.statements@) is Some { Some(vs) } else { None },
        Statement::If(i) => match stmt_scoped(vs, *i.then_branch) {
            Some(v1) => match i.else_branch {
                Some(e) => stmt_scoped(v1, *e),
                None => Some(v1),
            },
            None => None,
        },
        Statement::For(f) => if stmt_scoped(Set::empty().insert(f.variable@), *f.body) is Some { Some(vs) } else { None },
        Statement::While(w) => stmt_scoped(vs, *w.body),
        Statement::Match(m) => arms_scoped(vs, m.arms@),
        Statement::Try(t) => match stmt_scoped(vs, *t.try_block) {
            Some(v1) => if handlers_scoped(t.catch_handlers@) { Some(v1) } else { None },
            None => None,
        },
        _ => Some(vs),
    }
}

/// The variable names of a scope once statements are analyzed in it, in order.
pub open spec fn stmts_scoped(vs: Set<Seq<char>>, ss: Seq<Statement>) -> Option<Set<Seq<char>>>
    decreases ss,
{
    if ss.len() == 0 {
        Some(vs)
    } else {
        match stmts_scoped(vs, ss.subrange(0, ss.len() - 1)) {
            Some(v1) => stmt_scoped(v1, ss[ss.len() - 1]),
            None => None,
        }
    }
}

/// The variable names of a scope once the bodies of match arms are analyzed in it, in order.
pub open spec fn arms_scoped(vs: Set<Seq<char>>, arms: Seq<MatchArmStmt>) -> Option<Set<Seq<char>>>
    decreases arms,
{
    if arms.len() == 0 {
        Some(vs)
    } else {
        match arms_scoped(vs, arms.subrange(0, arms.len() - 1)) {
            Some(v1) => stmt_scoped(v1, arms[arms.len() - 1].body),
            None => None,
        }
    }
}

/// Each catch handler, its variable and body in a scope of their own, declares no name twice.
pub open spec fn handlers_scoped(hs: Seq<CatchHandlerStmt>) -> bool
    decreases hs,
{
    if hs.len() == 0 {
        true
    } else {
        handlers_scoped(hs.subrange(0, hs.len() - 1))
            && stmt_scoped(Set::empty().insert(hs[hs.len() - 1].variable@), hs[hs.len() - 1].body) is Some
    }
}

/// The variable names of a scope once parameters are declared in it, in order.
pub open spec fn params_scoped(vs: Set<Seq<char>>, ps: Seq<Parameter>) -> Option<Set<Seq<char>>>
    decreases ps.len(),
{
    if ps.len() == 0 {
        Some(vs)
    } else {
        match params_scoped(vs, ps.drop_last()) {
            Some(v1) => declare(v1, ps.last().name@),
            None => None,
        }
    }
}

/// A function's parameters, then its body, in a scope of their own, declare no name twice; a
/// function without a body has nothing analyzed.
pub open spec fn body_scoped(f: FunctionDecl) -> bool {
    match f.body {
        Some(b) => match params_scoped(Set::empty(), f.parameters@) {
            Some(ps) => stmts_scoped(ps, b.statements@) is Some,
            None => false,
        },
        None => true,
    }
}

/// The names of a scope, variables, functions and types, once a function is analyzed in it.
pub open spec fn function_scoped(n: (Set<Seq<char>>, Set<Seq<char>>, Set<Seq<char>>), f: FunctionDecl)
    -> Option<(Set<Seq<char>>, Set<Seq<char>>, Set<Seq<char>>)>
{
    match declare(n.1, f.name@) {
        Some(fs) => if body_scoped(f) { Some((n.0, fs, n.2)) } else { None },
        None => None,
    }
}

/// The names of a scope once functions are analyzed in it, in order.
pub open spec fn functions_scoped(n: (Set<Seq<char>>, Set<Seq<char>>, Set<Seq<char>>), fs: Seq<FunctionDecl>)
    -> Option<(Set<Seq<char>>, Set<Seq<char>>, Set<Seq<char>>)>
    decreases fs.len(),
{
    if fs.len() == 0 {
        Some(n)
    } else {
        match functions_scoped(n, fs.drop_last()) {
            Some(n1) => function_scoped(n1, fs.last()),
            None => None,
        }
    }
}

/// A variable name declared among the names of a scope.
pub open spec fn declare_variable(n: (Set<Seq<char>>, Set<Seq<char>>, Set<Seq<char>>), name: Seq<char>)
    -> Option<(Set<Seq<char>>, Set<Seq<char>>, Set<Seq<char>>)>
{
    match declare(n.0, name) {
        Some(vs) => Some((vs, n.1, n.2)),
        None => None,
    }
}

/// A type name declared among the names of a scope.
pub open spec fn declare_type(n: (Set<Seq<char>>, Set<Seq<char>>, Set<Seq<char>>), name: Seq<char>)
    -> Option<(Set<Seq<char>>, Set<Seq<char>>, Set<Seq<char>>)>
{
    match declare(n.2, name) {
        Some(ts) => Some((n.0, n.1, ts)),
        None => None,
    }
}

/// The names of a scope once a declaration is analyzed in it: variables and constants are
/// variables, structs and interfaces are types, the methods of structs and implementations are
/// functions; `None` when a name is declared twice in one scope.
pub open spec fn decl_scoped(n: (Set<Seq<char>>, Set<Seq<char>>, Set<Seq<char>>), d: Declaration)
    -> Option<(Set<Seq<char>>, Set<Seq<char>>, Set<Seq<char>>)>
{
    match d {
        Declaration::Function(f) => function_scoped(n, f),
        Declaration::Variable(v) => declare_variable(n, v.name@),
        Declaration::Constant(c) => declare_variable(n, c.name@),
        Declaration::Type(t) => declare_type(n, t.name@),
        Declaration::Struct(st) => match declare_type(n, st.name@) {
            Some(n1) => functions_scoped(n1, st.methods@),
            None => None,
        },
        Declaration::Interface(i) => declare_type(n, i.name@),
        Declaration::Import(_) => Some(n),
        Declaration::Impl(i) => functions_scoped(n, i.methods@),
    }
}

/// The names of a scope once declarations are analyzed in it, in order.
pub open spec fn decls_scoped(n: (Set<Seq<char>>, Set<Seq<char>>, Set<Seq<char>>), ds: Seq<Declaration>)
    -> Option<(Set<Seq<char>>, Set<Seq<char>>, Set<Seq<char>>)>
    decreases ds.len(),
{
    if ds.len() == 0 {
        Some(n)
    } else {
        match decls_scoped(n, ds.drop_last()) {
            Some(n1) => decl_scoped(n1, ds.last()),
            None => None,
        }
    }
}

/// Scope analyzer for Nature language
pub struct ScopeAnalyzer {
    /// All scopes in the program
    scopes: Vec<Scope>,
    /// Current scope index
    current_scope: usize,
    /// Scope stack for nested scopes
    scope_stack: Vec<usize>,
}

impl ScopeAnalyzer {
    /// All scopes made so far, in the order they were made.
    pub closed spec fn all_scopes(&self) -> Seq<Scope> {
        self.scopes@
    }

    /// The index of the current scope.
    pub closed spec fn current_index(&self) -> int {
        self.current_scope as int
    }

    /// The scopes to return to, innermost last.
    pub closed spec fn stack(&self) -> Seq<usize> {
        self.scope_stack@
    }

    /// The analyzer's invariant.
    pub open spec fn wf(&self) -> bool {
        &&& self.all_scopes().len() >= 1
        &&& 0 <= self.current_index() < self.all_scopes().len()
        &&& forall|i: int| 0 <= i < self.all_scopes().len() ==> #[trigger] scope_ok(self.all_scopes(), i)
        &&& forall|i: int| 0 <= i < self.stack().len() ==> #[trigger] self.stack()[i] < self.all_scopes().len()
    }

    /// The current scope.
    pub open spec fn cur(&self) -> Scope {
        self.all_scopes()[self.current_index()]
    }

    /// `self` is `old` after analysis: the scopes made before keep their shape, in place.
    pub open spec fn grown_from(&self, old: ScopeAnalyzer) -> bool {
        &&& self.wf()
        &&& self.all_scopes().len() >= old.all_scopes().len()
        &&& forall|i: int| 0 <= i < old.all_scopes().len() ==> same_frame(old.all_scopes()[i], #[trigger] self.all_scopes()[i])
    }

    /// `self` is `old` where it stands: same current scope, same scopes to return to.
    pub open spec fn back_at(&self, old: ScopeAnalyzer) -> bool {
        &&& self.current_index() == old.current_index()
        &&& self.stack() == old.stack()
    }

    /// Create a new scope analyzer, with the global scope
    pub fn new() -> (res: Self)
        ensures
            res.wf(),
            res.all_scopes().len() == 1,
            res.current_index() == 0,
            res.stack().len() == 0,
            res.cur().level == 0,
            res.cur().parent is None,
            res.cur().variables@.len() == 0,
            res.cur().functions@.len() == 0,
            res.cur().types@.len() == 0,
            scope_names(res.cur()) == no_names(),
    {
        let mut analyzer = ScopeAnalyzer { scopes: Vec::new(), current_scope: 0, scope_stack: Vec::new() };
        analyzer.create_scope(None, Location::new(0, 0, 0));
        proof {
            lemma_names_empty(analyzer.cur().variables@);
            lemma_names_empty(analyzer.cur().functions@);
            lemma_names_empty(analyzer.cur().types@);
        }
        analyzer
    }

    /// Create a new scope under `parent`, one level deeper, and hand back its index
    fn create_scope(&mut self, parent: Option<usize>, location: Location) -> (res: usize)
        requires
            forall|i: int| 0 <= i < old(self).all_scopes().len() ==> #[trigger] scope_ok(old(self).all_scopes(), i),
            parent matches Some(p) ==> p < old(self).all_scopes().len(),
        ensures
            res == old(self).all_scopes().len(),
            final(self).all_scopes() == old(self).all_scopes().push(final(self).all_scopes()[res as int]),
            forall|i: int| 0 <= i < final(self).all_scopes().len() ==> #[trigger] scope_ok(final(self).all_scopes(), i),
            final(self).all_scopes()[res as int].parent == parent,
            final(self).all_scopes()[res as int].level == match parent {
                Some(p) => old(self).all_scopes()[p as int].level + 1,
                None => 0,
            },
            final(self).all_scopes()[res as int].variables@.len() == 0,
            final(self).all_scopes()[res as int].functions@.len() == 0,
            final(self).all_scopes()[res as int].types@.len() == 0,
            final(self).all_scopes()[res as int].start_location == location,
            final(self).current_index() == old(self).current_index(),
            final(self).stack() == old(self).stack(),
    {
        let scope_id = self.scopes.len();
        let level = match parent {
            Some(parent_id) => {
                proof {
                    assert(scope_ok(self.all_scopes(), parent_id as int));
                }
                self.scopes[parent_id].level + 1
            },
            None => 0,
        };
        let scope = Scope {
            level,
            parent,
            variables: Vec::new(),
            functions: Vec::new(),
            types: Vec::new(),
            start_location: location,
            end_location: location,
        };
        self.scopes.push(scope);
        proof {
            assert forall|i: int| 0 <= i < self.all_scopes().len() implies #[trigger] scope_ok(self.all_scopes(), i) by {
                if i < scope_id {
                    assert(scope_ok(old(self).all_scopes(), i));
                    assert(self.all_scopes()[i] == old(self).all_scopes()[i]);
                    match self.all_scopes()[i].parent {
                        Some(p) => {
                            assert(self.all_scopes()[p as int] == old(self).all_scopes()[p as int]);
                        },
                        None => {},
                    }
                } else {
                    assert(distinct_keys(self.all_scopes()[i].variables@));
                    match parent {
                        Some(p) => {
                            assert(self.all_scopes()[p as int] == old(self).all_scopes()[p as int]);
                        },
                        None => {},
                    }
                }
            }
        }
        scope_id
    }

    /// Enter a new scope nested in the current one
    pub fn enter_scope(&mut self, location: Location)
        requires
            old(self).wf(),
        ensures
            final(self).wf(),
            final(self).grown_from(*old(self)),
            final(self).all_scopes().len() == old(self).all_scopes().len() + 1,
            final(self).all_scopes().drop_last() == old(self).all_scopes(),
            final(self).current_index() == old(self).all_scopes().len(),
            final(self).stack() == old(self).stack().push(old(self).current_index() as usize),
            final(self).cur().parent == Some(old(self).current_index() as usize),
            final(self).cur().level == old(self).cur().level + 1,
            final(self).cur().variables@.len() == 0,
            final(self).cur().functions@.len() == 0,
            final(self).cur().types@.len() == 0,
    {
        let new_scope_id = self.create_scope(Some(self.current_scope), location);
        self.scope_stack.push(self.current_scope);
        self.current_scope = new_scope_id;
        proof {
            assert(self.all_scopes().drop_last() =~= old(self).all_scopes());
            assert forall|i: int| 0 <= i < old(self).all_scopes().len() implies
                same_frame(old(self).all_scopes()[i], #[trigger] self.all_scopes()[i]) by {
                assert(self.all_scopes()[i] == self.all_scopes().drop_last()[i]);
            }
        }
    }

    /// Exit the current scope, back to the one it was entered from
    pub fn exit_scope(&mut self)
        requires
            old(self).wf(),
        ensures
            final(self).wf(),
            final(self).grown_from(*old(self)),
            final(self).all_scopes() == old(self).all_scopes(),
            old(self).stack().len() > 0 ==> final(self).current_index() == old(self).stack().last()
                && final(self).stack() == old(self).stack().drop_last(),
            old(self).stack().len() == 0 ==> *final(self) == *old(self),
    {
        if self.scope_stack.len() > 0 {
            match self.scope_stack.pop() {
                Some(parent_scope) => {
                    self.current_scope = parent_scope;
                },
                None => {},
            }
        }
    }

    /// Get current scope level
    pub fn current_scope_level(&self) -> (res: usize)
        requires
            self.wf(),
        ensures
            res == self.cur().level,
    {
        self.scopes[self.current_scope].level
    }

    /// Add a variable to the current scope, unless the name is declared there already
    pub fn add_variable(&mut self, name: String, var_info: VariableInfo) -> (res: Result<()>)
        requires
            old(self).wf(),
        ensures
            final(self).wf(),
            final(self).grown_from(*old(self)),
            final(self).back_at(*old(self)),
            final(self).all_scopes().len() == old(self).all_scopes().len(),
            res is Err <==> assoc_get(old(self).cur().variables@, name@) is Some,
            res is Err ==> *final(self) == *old(self) && (res->Err_0 matches CompilerError::Semantic { line, column, message }
                && line == var_info.location.line && column == var_info.location.column
                && message@ == already_declared_message("Variable '"@, name@)),
            res is Ok ==> {
                &&& final(self).cur().variables@ == old(self).cur().variables@.push((name, var_info))
                &&& final(self).cur().functions@ == old(self).cur().functions@
                &&& final(self).cur().types@ == old(self).cur().types@
                &&& same_frame(old(self).cur(), final(self).cur())
                &&& forall|i: int| 0 <= i < old(self).all_scopes().len() && i != old(self).current_index()
                    ==> #[trigger] final(self).all_scopes()[i] == old(self).all_scopes()[i]
            },
    {
        let idx = self.current_scope;
        match find_entry(&self.scopes[idx].variables, name.as_str()) {
            Some(_) => {
                let message = concat3("Variable '", name.as_str(), "' already declared in current scope");
                Err(CompilerError::semantic(var_info.location.line, var_info.location.column, message.as_str()))
            },
            None => {
                let ghost olds = self.all_scopes();
                proof {
                    assert(scope_ok(olds, idx as int));
                }
                let mut scope = self.scopes.remove(idx);
                let ghost before = scope;
                proof {
                    lemma_assoc_push(scope.variables@, name, var_info, name@);
                    assert(distinct_keys(scope.variables@)) by {
                        assert(scope_ok(olds, idx as int));
                    }
                    crate::semantic::symbol_table::lemma_push_keeps_distinct(scope.variables@, (name, var_info));
                }
                scope.variables.push((name, var_info));
                self.scopes.insert(idx, scope);
                proof {
                    assert(self.all_scopes() =~= olds.update(idx as int, scope));
                    self.lemma_update_keeps_shape(olds, idx as int, before);
                    assert(self.stack() == old(self).stack());
                    assert(self.all_scopes().len() == old(self).all_scopes().len());
                }
                Ok(())
            },
        }
    }

    /// Add a function to the current scope, unless the name is declared there already
    pub fn add_function(&mut self, name: String, func_info: FunctionInfo) -> (res: Result<()>)
        requires
            old(self).wf(),
        ensures
            final(self).wf(),
            final(self).grown_from(*old(self)),
            final(self).back_at(*old(self)),
            final(self).all_scopes().len() == old(self).all_scopes().len(),
            res is Err <==> assoc_get(old(self).cur().functions@, name@) is Some,
            res is Err ==> *final(self) == *old(self) && (res->Err_0 matches CompilerError::Semantic { line, column, message }
                && line == func_info.location.line && column == func_info.location.column
                && message@ == already_declared_message("Function '"@, name@)),
            res is Ok ==> {
                &&& final(self).cur().functions@ == old(self).cur().functions@.push((name, func_info))
                &&& final(self).cur().variables@ == old(self).cur().variables@
                &&& final(self).cur().types@ == old(self).cur().types@
                &&& same_frame(old(self).cur(), final(self).cur())
                &&& forall|i: int| 0 <= i < old(self).all_scopes().len() && i != old(self).current_index()
                    ==> #[trigger] final(self).all_scopes()[i] == old(self).all_scopes()[i]
            },
    {
        let idx = self.current_scope;
        match find_entry(&self.scopes[idx].functions, name.as_str()) {
            Some(_) => {
                let message = concat3("Function '", name.as_str(), "' already declared in current scope");
                Err(CompilerError::semantic(func_info.location.line, func_info.location.column, message.as_str()))
            },
            None => {
                let ghost olds = self.all_scopes();
                proof {
                    assert(scope_ok(olds, idx as int));
                }
                let mut scope = self.scopes.remove(idx);
                let ghost before = scope;
                proof {
                    assert(distinct_keys(scope.functions@)) by {
                        assert(scope_ok(olds, idx as int));
                    }
                    crate::semantic::symbol_table::lemma_push_keeps_distinct(scope.functions@, (name, func_info));
                }
                scope.functions.push((name, func_info));
                self.scopes.insert(idx, scope);
                proof {
                    assert(self.all_scopes() =~= olds.update(idx as int, scope));
                    self.lemma_update_keeps_shape(olds, idx as int, before);
                    assert(self.stack() == old(self).stack());
                    assert(self.all_scopes().len() == old(self).all_scopes().len());
                }
                Ok(())
            },
        }
    }

    /// Add a type to the current scope, unless the name is declared there already
    pub fn add_type(&mut self, name: String, type_info: TypeInfo) -> (res: Result<()>)
        requires
            old(self).wf(),
        ensures
            final(self).wf(),
            final(self).grown_from(*old(self)),
            final(self).back_at(*old(self)),
            final(self).all_scopes().len() == old(self).all_scopes().len(),
            res is Err <==> assoc_get(old(self).cur().types@, name@) is Some,
            res is Err ==> *final(self) == *old(self) && (res->Err_0 matches CompilerError::Semantic { line, column, message }
                && line == type_info.location.line && column == type_info.location.column
                && message@ == already_declared_message("Type '"@, name@)),
            res is Ok ==> {
                &&& final(self).cur().types@ == old(self).cur().types@.push((name, type_info))
                &&& final(self).cur().variables@ == old(self).cur().variables@
                &&& final(self).cur().functions@ == old(self).cur().functions@
                &&& same_frame(old(self).cur(), final(self).cur())
                &&& forall|i: int| 0 <= i < old(self).all_scopes().len() && i != old(self).current_index()
                    ==> #[trigger] final(self).all_scopes()[i] == old(self).all_scopes()[i]
            },
    {
        let idx = self.current_scope;
        match find_entry(&self.scopes[idx].types, name.as_str()) {
            Some(_) => {
                let message = concat3("Type '", name.as_str(), "' already declared in current scope");
                Err(CompilerError::semantic(type_info.location.line, type_info.location.column, message.as_str()))
            },
            None => {
                let ghost olds = self.all_scopes();
                proof {
                    assert(scope_ok(olds, idx as int));
                }
                let mut scope = self.scopes.remove(idx);
                let ghost before = scope;
                proof {
                    assert(distinct_keys(scope.types@)) by {
                        assert(scope_ok(olds, idx as int));
                    }
                    crate::semantic::symbol_table::lemma_push_keeps_distinct(scope.types@, (name, type_info));
                }
                scope.types.push((name, type_info));
                self.scopes.insert(idx, scope);
                proof {
                    assert(self.all_scopes() =~= olds.update(idx as int, scope));
                    self.lemma_update_keeps_shape(olds, idx as int, before);
                    assert(self.stack() == old(self).stack());
                    assert(self.all_scopes().len() == old(self).all_scopes().len());
                }
                Ok(())
            },
        }
    }

    /// Replacing a scope by one of the same frame with distinct keys keeps every scope's shape.
    proof fn lemma_update_keeps_shape(&self, olds: Seq<Scope>, idx: int, before: Scope)
        requires
            0 <= idx < olds.len(),
            before == olds[idx],
            forall|i: int| 0 <= i < olds.len() ==> #[trigger] scope_ok(olds, i),
            self.all_scopes().len() == olds.len(),
            same_frame(before, self.all_scopes()[idx]),
            distinct_keys(self.all_scopes()[idx].variables@),
            distinct_keys(self.all_scopes()[idx].functions@),
            distinct_keys(self.all_scopes()[idx].types@),
            forall|i: int| 0 <= i < olds.len() && i != idx ==> #[trigger] self.all_scopes()[i] == olds[i],
        ensures
            forall|i: int| 0 <= i < self.all_scopes().len() ==> #[trigger] scope_ok(self.all_scopes(), i),
    {
        assert forall|i: int| 0 <= i < self.all_scopes().len() implies #[trigger] scope_ok(self.all_scopes(), i) by {
            assert(scope_ok(olds, i));
            match self.all_scopes()[i].parent {
                Some(p) => {
                    assert(same_frame(olds[p as int], self.all_scopes()[p as int]));
                },
                None => {},
            }
        }
    }

    /// Look up a variable from the current scope outwards
    pub fn lookup_variable(&self, name: &str) -> (res: Option<&VariableInfo>)
        requires
            self.wf(),
        ensures
            match res {
                Some(v) => variable_in(self.all_scopes(), self.current_index(), name@) == Some(*v),
                None => variable_in(self.all_scopes(), self.current_index(), name@) is None,
            },
    {
        let mut scope_id = self.current_scope;
        loop
            invariant
                self.wf(),
                scope_id < self.all_scopes().len(),
                variable_in(self.all_scopes(), self.current_index(), name@)
                    == variable_in(self.all_scopes(), scope_id as int, name@),
            decreases scope_id,
        {
            proof {
                assert(scope_ok(self.all_scopes(), scope_id as int));
            }
            match find_entry(&self.scopes[scope_id].variables, name) {
                Some(i) => {
                    return Some(&self.scopes[scope_id].variables[i].1);
                },
                None => {},
            }
            match self.scopes[scope_id].parent {
                Some(parent) => {
                    scope_id = parent;
                },
                None => {
                    return None;
                },
            }
        }
    }

    /// Look up a function from the current scope outwards
    pub fn lookup_function(&self, name: &str) -> (res: Option<&FunctionInfo>)
        requires
            self.wf(),
        ensures
            match res {
                Some(v) => function_in(self.all_scopes(), self.current_index(), name@) == Some(*v),
                None => function_in(self.all_scopes(), self.current_index(), name@) is None,
            },
    {
        let mut scope_id = self.current_scope;
        loop
            invariant
                self.wf(),
                scope_id < self.all_scopes().len(),
                function_in(self.all_scopes(), self.current_index(), name@)
                    == function_in(self.all_scopes(), scope_id as int, name@),
            decreases scope_id,
        {
            proof {
                assert(scope_ok(self.all_scopes(), scope_id as int));
            }
            match find_entry(&self.scopes[scope_id].functions, name) {
                Some(i) => {
                    return Some(&self.scopes[scope_id].functions[i].1);
                },
                None => {},
            }
            match self.scopes[scope_id].parent {
                Some(parent) => {
                    scope_id = parent;
                },
                None => {
                    return None;
                },
            }
        }
    }

    /// Look up a type from the current scope outwards
    pub fn lookup_type(&self, name: &str) -> (res: Option<&TypeInfo>)
        requires
            self.wf(),
        ensures
            match res {
                Some(v) => type_in(self.all_scopes(), self.current_index(), name@) == Some(*v),
                None => type_in(self.all_scopes(), self.current_index(), name@) is None,
            },
    {
        let mut scope_id = self.current_scope;
        loop
            invariant
                self.wf(),
                scope_id < self.all_scopes().len(),
                type_in(self.all_scopes(), self.current_index(), name@)
                    == type_in(self.all_scopes(), scope_id as int, name@),
            decreases scope_id,
        {
            proof {
                assert(scope_ok(self.all_scopes(), scope_id as int));
            }
            match find_entry(&self.scopes[scope_id].types, name) {
                Some(i) => {
                    return Some(&self.scopes[scope_id].types[i].1);
                },
                None => {},
            }
            match self.scopes[scope_id].parent {
                Some(parent) => {
                    scope_id = parent;
                },
                None => {
                    return None;
                },
            }
        }
    }

    /// Get all scopes
    pub fn scopes(&self) -> (res: &Vec<Scope>)
        ensures
            res@ == self.all_scopes(),
    {
        &self.scopes
    }

    /// Get current scope
    pub fn current_scope(&self) -> (res: &Scope)
        requires
            self.wf(),
        ensures
            *res == self.cur(),
    {
        &self.scopes[self.current_scope]
    }
}

/// Declaring a new name in an association list adds it to the names it holds.
proof fn lemma_names_push<V>(e: Seq<(String, V)>, key: String, v: V)
    requires
        assoc_get(e, key@) is None,
    ensures
        names_of(e.push((key, v))) == names_of(e).insert(key@),
{
    assert forall|n: Seq<char>| #![trigger assoc_get(e.push((key, v)), n)]
        (assoc_get(e.push((key, v)), n) is Some) == names_of(e).insert(key@).contains(n) by {
        lemma_assoc_push(e, key, v, n);
    }
    assert(names_of(e.push((key, v))) =~= names_of(e).insert(key@));
}

/// An empty association list holds no name.
proof fn lemma_names_empty<V>(e: Seq<(String, V)>)
    requires
        e.len() == 0,
    ensures
        names_of(e) == Set::<Seq<char>>::empty(),
{
    assert(names_of(e) =~= Set::<Seq<char>>::empty());
}

/// Statements declaring a name twice up to some point declare one twice in all.
proof fn lemma_stmts_scoped_prefix(vs: Set<Seq<char>>, ss: Seq<Statement>, k: int)
    requires
        0 <= k <= ss.len(),
        stmts_scoped(vs, ss.subrange(0, k)) is None,
    ensures
        stmts_scoped(vs, ss) is None,
    decreases ss.len() - k,
{
    if k < ss.len() {
        assert(ss.subrange(0, k + 1).subrange(0, k) =~= ss.subrange(0, k));
        lemma_stmts_scoped_prefix(vs, ss, k + 1);
    } else {
        assert(ss.subrange(0, k) =~= ss);
    }
}

/// Match arms declaring a name twice up to some point declare one twice in all.
proof fn lemma_arms_scoped_prefix(vs: Set<Seq<char>>, arms: Seq<MatchArmStmt>, k: int)
    requires
        0 <= k <= arms.len(),
        arms_scoped(vs, arms.subrange(0, k)) is None,
    ensures
        arms_scoped(vs, arms) is None,
    decreases arms.len() - k,
{
    if k < arms.len() {
        assert(arms.subrange(0, k + 1).subrange(0, k) =~= arms.subrange(0, k));
        lemma_arms_scoped_prefix(vs, arms, k + 1);
    } else {
        assert(arms.subrange(0, k) =~= arms);
    }
}

/// Catch handlers declaring a name twice up to some point declare one twice in all.
proof fn lemma_handlers_scoped_prefix(hs: Seq<CatchHandlerStmt>, k: int)
    requires
        0 <= k <= hs.len(),
        !handlers_scoped(hs.subrange(0, k)),
    ensures
        !handlers_scoped(hs),
    decreases hs.len() - k,
{
    if k < hs.len() {
        assert(hs.subrange(0, k + 1).subrange(0, k) =~= hs.subrange(0, k));
        lemma_handlers_scoped_prefix(hs, k + 1);
    } else {
        assert(hs.subrange(0, k) =~= hs);
    }
}

/// Parameters declaring a name twice up to some point declare one twice in all.
proof fn lemma_params_scoped_prefix(vs: Set<Seq<char>>, ps: Seq<Parameter>, k: int)
    requires
        0 <= k <= ps.len(),
        params_scoped(vs, ps.subrange(0, k)) is None,
    ensures
        params_scoped(vs, ps) is None,
    decreases ps.len() - k,
{
    if k < ps.len() {
        assert(ps.subrange(0, k + 1).drop_last() =~= ps.subrange(0, k));
        lemma_params_scoped_prefix(vs, ps, k + 1);
    } else {
        assert(ps.subrange(0, k) =~= ps);
    }
}

/// Functions declaring a name twice up to some point declare one twice in all.
proof fn lemma_functions_scoped_prefix(n: (Set<Seq<char>>, Set<Seq<char>>, Set<Seq<char>>), fs: Seq<FunctionDecl>, k: int)
    requires
        0 <= k <= fs.len(),
        functions_scoped(n, fs.subrange(0, k)) is None,
    ensures
        functions_scoped(n, fs) is None,
    decreases fs.len() - k,
{
    if k < fs.len() {
        assert(fs.subrange(0, k + 1).drop_last() =~= fs.subrange(0, k));
        lemma_functions_scoped_prefix(n, fs, k + 1);
    } else {
        assert(fs.subrange(0, k) =~= fs);
    }
}

/// Declarations declaring a name twice up to some point declare one twice in all.
proof fn lemma_decls_scoped_prefix(n: (Set<Seq<char>>, Set<Seq<char>>, Set<Seq<char>>), ds: Seq<Declaration>, k: int)
    requires
        0 <= k <= ds.len(),
        decls_scoped(n, ds.subrange(0, k)) is None,
    ensures
        decls_scoped(n, ds) is None,
    decreases ds.len() - k,
{
    if k < ds.len() {
        assert(ds.subrange(0, k + 1).drop_last() =~= ds.subrange(0, k));
        lemma_decls_scoped_prefix(n, ds, k + 1);
    } else {
        assert(ds.subrange(0, k) =~= ds);
    }
}

impl ScopeAnalyzer {
    /// Only the current scope of `old`, and the scopes made since, differ in `self`.
    pub open spec fn changed_only_cur(&self, old: ScopeAnalyzer) -> bool {
        forall|i: int| 0 <= i < old.all_scopes().len() && i != old.current_index()
            ==> #[trigger] self.all_scopes()[i] == old.all_scopes()[i]
    }

    /// `self` is `old` after statements were analyzed in its current scope, which now declares
    /// the variables `vs` and the same functions and types.
    pub open spec fn stmt_done(&self, old: ScopeAnalyzer, vs: Set<Seq<char>>) -> bool {
        &&& self.back_at(old)
        &&& self.changed_only_cur(old)
        &&& names_of(self.cur().variables@) == vs
        &&& self.cur().functions@ == old.cur().functions@
        &&& self.cur().types@ == old.cur().types@
    }

    /// `self` is `old` after declarations were analyzed in its current scope, which now
    /// declares the names `n`.
    pub open spec fn decl_done(&self, old: ScopeAnalyzer, n: (Set<Seq<char>>, Set<Seq<char>>, Set<Seq<char>>)) -> bool {
        &&& self.back_at(old)
        &&& self.changed_only_cur(old)
        &&& scope_names(self.cur()) == n
    }
}

/// Growth composes.
proof fn lemma_grown_trans(a: ScopeAnalyzer, b: ScopeAnalyzer, c: ScopeAnalyzer)
    requires
        b.grown_from(a),
        c.grown_from(b),
    ensures
        c.grown_from(a),
{
    assert forall|i: int| 0 <= i < a.all_scopes().len() implies same_frame(a.all_scopes()[i], #[trigger] c.all_scopes()[i]) by {
        assert(same_frame(a.all_scopes()[i], b.all_scopes()[i]));
        assert(same_frame(b.all_scopes()[i], c.all_scopes()[i]));
    }
}

/// Two steps of statement analysis make one.
proof fn lemma_stmt_done_trans(a: ScopeAnalyzer, b: ScopeAnalyzer, c: ScopeAnalyzer, v1: Set<Seq<char>>, v2: Set<Seq<char>>)
    requires
        b.grown_from(a),
        b.stmt_done(a, v1),
        c.stmt_done(b, v2),
    ensures
        c.stmt_done(a, v2),
{
    assert forall|i: int| 0 <= i < a.all_scopes().len() && i != a.current_index()
        implies #[trigger] c.all_scopes()[i] == a.all_scopes()[i] by {
        assert(c.all_scopes()[i] == b.all_scopes()[i]);
    }
}

/// Two steps of declaration analysis make one.
proof fn lemma_decl_done_trans(a: ScopeAnalyzer, b: ScopeAnalyzer, c: ScopeAnalyzer,
    n1: (Set<Seq<char>>, Set<Seq<char>>, Set<Seq<char>>), n2: (Set<Seq<char>>, Set<Seq<char>>, Set<Seq<char>>))
    requires
        b.grown_from(a),
        b.decl_done(a, n1),
        c.decl_done(b, n2),
    ensures
        c.decl_done(a, n2),
{
    assert forall|i: int| 0 <= i < a.all_scopes().len() && i != a.current_index()
        implies #[trigger] c.all_scopes()[i] == a.all_scopes()[i] by {
        assert(c.all_scopes()[i] == b.all_scopes()[i]);
    }
}

/// Entering a scope, analyzing in it and leaving it changes no scope made before.
proof fn lemma_nested_back(a: ScopeAnalyzer, e: ScopeAnalyzer, x: ScopeAnalyzer, f: ScopeAnalyzer)
    requires
        a.wf(),
        e.all_scopes().drop_last() == a.all_scopes(),
        e.all_scopes().len() == a.all_scopes().len() + 1,
        e.current_index() == a.all_scopes().len(),
        e.stack() == a.stack().push(a.current_index() as usize),
        x.grown_from(e),
        x.back_at(e),
        x.changed_only_cur(e),
        f.all_scopes() == x.all_scopes(),
        f.current_index() == x.stack().last(),
        f.stack() == x.stack().drop_last(),
    ensures
        f.stmt_done(a, names_of(a.cur().variables@)),
        f.decl_done(a, scope_names(a.cur())),
        forall|i: int| 0 <= i < a.all_scopes().len() ==> #[trigger] f.all_scopes()[i] == a.all_scopes()[i],
{
    assert forall|i: int| 0 <= i < a.all_scopes().len() implies #[trigger] f.all_scopes()[i] == a.all_scopes()[i] by {
        assert(x.all_scopes()[i] == e.all_scopes()[i]);
        assert(e.all_scopes()[i] == e.all_scopes().drop_last()[i]);
    }
    assert(f.stack() =~= a.stack());
    assert(f.current_index() == a.current_index());
}

impl ScopeAnalyzer {
    /// Analyze a program for scope information: its declarations, in the current scope
    pub fn analyze_program(&mut self, program: &Program) -> (res: Result<()>)
        requires
            old(self).wf(),
        ensures
            final(self).grown_from(*old(self)),
            res is Ok <==> decls_scoped(scope_names(old(self).cur()), program.declarations@) is Some,
            res is Ok ==> final(self).decl_done(*old(self), decls_scoped(scope_names(old(self).cur()), program.declarations@)->0),
            program.declarations@.len() == 0 ==> *final(self) == *old(self) && res is Ok,
    {
        let ghost ds = program.declarations@;
        let ghost n0 = scope_names(old(self).cur());
        let mut i: usize = 0;
        while i < program.declarations.len()
            invariant
                self.grown_from(*old(self)),
                ds == program.declarations@,
                n0 == scope_names(old(self).cur()),
                i <= ds.len(),
                decls_scoped(n0, ds.subrange(0, i as int)) == Some(scope_names(self.cur())),
                self.decl_done(*old(self), scope_names(self.cur())),
                i == 0 ==> *self == *old(self),
            decreases program.declarations@.len() - i,
        {
            let ghost before = *self;
            proof {
                assert(ds.subrange(0, i + 1).drop_last() =~= ds.subrange(0, i as int));
            }
            match self.analyze_declaration(&program.declarations[i]) {
                Ok(()) => {},
                Err(e) => {
                    proof {
                        lemma_decls_scoped_prefix(n0, ds, i + 1);
                    }
                    return Err(e);
                },
            }
            proof {
                lemma_decl_done_trans(*old(self), before, *self, scope_names(before.cur()), scope_names(self.cur()));
            }
            i = i + 1;
        }
        proof {
            assert(ds.subrange(0, ds.len() as int) =~= ds);
        }
        Ok(())
    }

    /// Analyze a declaration
    fn analyze_declaration(&mut self, declaration: &Declaration) -> (res: Result<()>)
        requires
            old(self).wf(),
        ensures
            final(self).grown_from(*old(self)),
            res is Ok <==> decl_scoped(scope_names(old(self).cur()), *declaration) is Some,
            res is Ok ==> final(self).decl_done(*old(self), decl_scoped(scope_names(old(self).cur()), *declaration)->0),
    {
        match declaration {
            Declaration::Function(func) => self.analyze_function(func),
            Declaration::Variable(var) => self.analyze_variable(var),
            Declaration::Constant(c) => self.analyze_constant(c),
            Declaration::Type(t) => self.analyze_type(t),
            Declaration::Struct(st) => self.analyze_struct(st),
            Declaration::Interface(i) => self.analyze_interface(i),
            Declaration::Import(i) => self.analyze_import(i),
            Declaration::Impl(i) => self.analyze_impl(i),
        }
    }

    /// Analyze a function declaration: record it, then its parameters and body in a scope of
    /// their own
    fn analyze_function(&mut self, func: &FunctionDecl) -> (res: Result<()>)
        requires
            old(self).wf(),
        ensures
            final(self).grown_from(*old(self)),
            res is Ok <==> function_scoped(scope_names(old(self).cur()), *func) is Some,
            res is Ok ==> final(self).decl_done(*old(self), function_scoped(scope_names(old(self).cur()), *func)->0),
    {
        let func_info = FunctionInfo {
            name: func.name.clone(),
            declaration: func.clone(),
            location: func.location,
            scope_level: self.current_scope_level(),
        };
        let name = func.name.clone();
        proof {
            assert(name@ == func.name@);
        }
        self.add_function(name, func_info)?;
        let ghost added = *self;
        proof {
            lemma_names_push(old(self).cur().functions@, name, func_info);
            assert(self.decl_done(*old(self), (scope_names(old(self).cur()).0,
                scope_names(old(self).cur()).1.insert(func.name@), scope_names(old(self).cur()).2)));
        }
        match &func.body {
            Some(body) => {
                self.enter_scope(func.location);
                let ghost entered = *self;
                let ghost ps = func.parameters@;
                proof {
                    lemma_names_empty(self.cur().variables@);
                    assert(ps.subrange(0, 0).len() == 0);
                }
                let mut i: usize = 0;
                while i < func.parameters.len()
                    invariant
                        self.grown_from(entered),
                        entered.grown_from(added),
                        added.grown_from(*old(self)),
                        added.decl_done(*old(self), (scope_names(old(self).cur()).0,
                            scope_names(old(self).cur()).1.insert(func.name@), scope_names(old(self).cur()).2)),
                        !scope_names(old(self).cur()).1.contains(func.name@),
                        func.body == Some(*body),
                        added.wf(),
                        entered.all_scopes().drop_last() == added.all_scopes(),
                        entered.all_scopes().len() == added.all_scopes().len() + 1,
                        entered.current_index() == added.all_scopes().len(),
                        entered.stack() == added.stack().push(added.current_index() as usize),
                        ps == func.parameters@,
                        i <= ps.len(),
                        params_scoped(Set::empty(), ps.subrange(0, i as int)) == Some(names_of(self.cur().variables@)),
                        self.stmt_done(entered, names_of(self.cur().variables@)),
                    decreases func.parameters@.len() - i,
                {
                    let param = &func.parameters[i];
                    let ghost before = *self;
                    let var_info = VariableInfo {
                        name: param.name.clone(),
                        var_type: Some(param.param_type.clone()),
                        location: param.location,
                        scope_level: self.current_scope_level(),
                        mutable: true,
                    };
                    let pname = param.name.clone();
                    proof {
                        assert(pname@ == ps[i as int].name@);
                        assert(ps.subrange(0, i + 1).drop_last() =~= ps.subrange(0, i as int));
                    }
                    match self.add_variable(pname, var_info) {
                        Ok(()) => {},
                        Err(e) => {
                            proof {
                                lemma_params_scoped_prefix(Set::empty(), ps, i + 1);
                                lemma_grown_trans(entered, before, *self);
                                lemma_grown_trans(added, entered, *self);
                                lemma_grown_trans(*old(self), added, *self);
                            }
                            return Err(e);
                        },
                    }
                    proof {
                        lemma_names_push(before.cur().variables@, pname, var_info);
                        lemma_stmt_done_trans(entered, before, *self, names_of(before.cur().variables@),
                            names_of(self.cur().variables@));
                    }
                    i = i + 1;
                }
                proof {
                    assert(ps.subrange(0, ps.len() as int) =~= ps);
                }
                let ghost params_done = *self;
                match self.analyze_block(body) {
                    Ok(()) => {},
                    Err(e) => {
                        return Err(e);
                    },
                }
                proof {
                    lemma_stmt_done_trans(entered, params_done, *self, names_of(params_done.cur().variables@),
                        names_of(self.cur().variables@));
                }
                let ghost inner = *self;
                self.exit_scope();
                proof {
                    lemma_nested_back(added, entered, inner, *self);
                    lemma_decl_done_trans(*old(self), added, *self, scope_names(added.cur()), scope_names(added.cur()));
                }
                Ok(())
            },
            None => Ok(()),
        }
    }

    /// Analyze a variable declaration
    fn analyze_variable(&mut self, var: &VariableDecl) -> (res: Result<()>)
        requires
            old(self).wf(),
        ensures
            final(self).grown_from(*old(self)),
            res is Ok <==> decl_scoped(scope_names(old(self).cur()), Declaration::Variable(*var)) is Some,
            res is Ok ==> final(self).decl_done(*old(self), decl_scoped(scope_names(old(self).cur()), Declaration::Variable(*var))->0),
    {
        let var_info = VariableInfo {
            name: var.name.clone(),
            var_type: match &var.var_type {
                Some(t) => Some(t.clone()),
                None => None,
            },
            mutable: var.mutable,
            location: var.location,
            scope_level: self.current_scope_level(),
        };
        let name = var.name.clone();
        proof {
            assert(name@ == var.name@);
        }
        self.add_variable(name, var_info)?;
        proof {
            lemma_names_push(old(self).cur().variables@, name, var_info);
        }
        Ok(())
    }

    /// Analyze a constant declaration: an immutable variable
    fn analyze_constant(&mut self, const_: &ConstantDecl) -> (res: Result<()>)
        requires
            old(self).wf(),
        ensures
            final(self).grown_from(*old(self)),
            res is Ok <==> decl_scoped(scope_names(old(self).cur()), Declaration::Constant(*const_)) is Some,
            res is Ok ==> final(self).decl_done(*old(self), decl_scoped(scope_names(old(self).cur()), Declaration::Constant(*const_))->0),
    {
        let var_info = VariableInfo {
            name: const_.name.clone(),
            var_type: match &const_.const_type {
                Some(t) => Some(t.clone()),
                None => None,
            },
            mutable: false,
            location: const_.location,
            scope_level: self.current_scope_level(),
        };
        let name = const_.name.clone();
        proof {
            assert(name@ == const_.name@);
        }
        self.add_variable(name, var_info)?;
        proof {
            lemma_names_push(old(self).cur().variables@, name, var_info);
        }
        Ok(())
    }

    /// Analyze a type declaration
    fn analyze_type(&mut self, type_: &TypeDecl) -> (res: Result<()>)
        requires
            old(self).wf(),
        ensures
            final(self).grown_from(*old(self)),
            res is Ok <==> decl_scoped(scope_names(old(self).cur()), Declaration::Type(*type_)) is Some,
            res is Ok ==> final(self).decl_done(*old(self), decl_scoped(scope_names(old(self).cur()), Declaration::Type(*type_))->0),
    {
        let type_info = TypeInfo {
            name: type_.name.clone(),
            declaration: type_.clone(),
            location: type_.location,
            scope_level: self.current_scope_level(),
        };
        let name = type_.name.clone();
        proof {
            assert(name@ == type_.name@);
        }
        self.add_type(name, type_info)?;
        proof {
            lemma_names_push(old(self).cur().types@, name, type_info);
        }
        Ok(())
    }

    /// Analyze a struct declaration: a type of that name, then its methods
    fn analyze_struct(&mut self, struct_: &StructDecl) -> (res: Result<()>)
        requires
            old(self).wf(),
        ensures
            final(self).grown_from(*old(self)),
            res is Ok <==> decl_scoped(scope_names(old(self).cur()), Declaration::Struct(*struct_)) is Some,
            res is Ok ==> final(self).decl_done(*old(self), decl_scoped(scope_names(old(self).cur()), Declaration::Struct(*struct_))->0),
    {
        let type_info = TypeInfo {
            name: struct_.name.clone(),
            declaration: TypeDecl {
                name: struct_.name.clone(),
                type_def: Type::Struct(StructType { name: struct_.name.clone(), type_args: Vec::new(), location: struct_.location }),
                location: struct_.location,
            },
            location: struct_.location,
            scope_level: self.current_scope_level(),
        };
        let name = struct_.name.clone();
        proof {
            assert(name@ == struct_.name@);
        }
        self.add_type(name, type_info)?;
        let ghost n1 = scope_names(self.cur());
        let ghost fs = struct_.methods@;
        proof {
            lemma_names_push(old(self).cur().types@, name, type_info);
            assert(declare_type(scope_names(old(self).cur()), struct_.name@) == Some(n1));
            assert(fs.subrange(0, 0).len() == 0);
        }
        let mut i: usize = 0;
        while i < struct_.methods.len()
            invariant
                self.grown_from(*old(self)),
                fs == struct_.methods@,
                declare_type(scope_names(old(self).cur()), struct_.name@) == Some(n1),
                i <= fs.len(),
                functions_scoped(n1, fs.subrange(0, i as int)) == Some(scope_names(self.cur())),
                self.decl_done(*old(self), scope_names(self.cur())),
            decreases struct_.methods@.len() - i,
        {
            let ghost before = *self;
            proof {
                assert(fs.subrange(0, i + 1).drop_last() =~= fs.subrange(0, i as int));
            }
            match self.analyze_function(&struct_.methods[i]) {
                Ok(()) => {},
                Err(e) => {
                    proof {
                        lemma_functions_scoped_prefix(n1, fs, i + 1);
                    }
                    return Err(e);
                },
            }
            proof {
                lemma_decl_done_trans(*old(self), before, *self, scope_names(before.cur()), scope_names(self.cur()));
            }
            i = i + 1;
        }
        proof {
            assert(fs.subrange(0, fs.len() as int) =~= fs);
        }
        Ok(())
    }

    /// Analyze an interface declaration: a type of that name
    fn analyze_interface(&mut self, interface: &InterfaceDecl) -> (res: Result<()>)
        requires
            old(self).wf(),
        ensures
            final(self).grown_from(*old(self)),
            res is Ok <==> decl_scoped(scope_names(old(self).cur()), Declaration::Interface(*interface)) is Some,
            res is Ok ==> final(self).decl_done(*old(self), decl_scoped(scope_names(old(self).cur()), Declaration::Interface(*interface))->0),
    {
        let type_info = TypeInfo {
            name: interface.name.clone(),
            declaration: TypeDecl {
                name: interface.name.clone(),
                type_def: Type::Interface(InterfaceType { name: interface.name.clone(), type_args: Vec::new(), location: interface.location }),
                location: interface.location,
            },
            location: interface.location,
            scope_level: self.current_scope_level(),
        };
        let name = interface.name.clone();
        proof {
            assert(name@ == interface.name@);
        }
        self.add_type(name, type_info)?;
        proof {
            lemma_names_push(old(self).cur().types@, name, type_info);
        }
        Ok(())
    }

    /// Analyze an import declaration: imports declare nothing in a scope
    fn analyze_import(&mut self, import: &ImportDecl) -> (res: Result<()>)
        requires
            old(self).wf(),
        ensures
            *final(self) == *old(self),
            res is Ok,
    {
        Ok(())
    }

    /// Analyze an implementation declaration: each of its methods
    fn analyze_impl(&mut self, impl_: &ImplDecl) -> (res: Result<()>)
        requires
            old(self).wf(),
        ensures
            final(self).grown_from(*old(self)),
            res is Ok <==> decl_scoped(scope_names(old(self).cur()), Declaration::Impl(*impl_)) is Some,
            res is Ok ==> final(self).decl_done(*old(self), decl_scoped(scope_names(old(self).cur()), Declaration::Impl(*impl_))->0),
    {
        let ghost n0 = scope_names(old(self).cur());
        let ghost fs = impl_.methods@;
        let mut i: usize = 0;
        while i < impl_.methods.len()
            invariant
                self.grown_from(*old(self)),
                fs == impl_.methods@,
                n0 == scope_names(old(self).cur()),
                i <= fs.len(),
                functions_scoped(n0, fs.subrange(0, i as int)) == Some(scope_names(self.cur())),
                self.decl_done(*old(self), scope_names(self.cur())),
            decreases impl_.methods@.len() - i,
        {
            let ghost before = *self;
            proof {
                assert(fs.subrange(0, i + 1).drop_last() =~= fs.subrange(0, i as int));
            }
            match self.analyze_function(&impl_.methods[i]) {
                Ok(()) => {},
                Err(e) => {
                    proof {
                        lemma_functions_scoped_prefix(n0, fs, i + 1);
                    }
                    return Err(e);
                },
            }
            proof {
                lemma_decl_done_trans(*old(self), before, *self, scope_names(before.cur()), scope_names(self.cur()));
            }
            i = i + 1;
        }
        proof {
            assert(fs.subrange(0, fs.len() as int) =~= fs);
        }
        Ok(())
    }

    /// Analyze a block, in the current scope
    fn analyze_block(&mut self, block: &Block) -> (res: Result<()>)
        requires
            old(self).wf(),
        ensures
            final(self).grown_from(*old(self)),
            res is Ok <==> stmts_scoped(names_of(old(self).cur().variables@), block.statements@) is Some,
            res is Ok ==> final(self).stmt_done(*old(self), stmts_scoped(names_of(old(self).cur().variables@), block.statements@)->0),
    {
        let ghost ss = block.statements@;
        let ghost v0 = names_of(old(self).cur().variables@);
        let mut i: usize = 0;
        while i < block.statements.len()
            invariant
                self.grown_from(*old(self)),
                ss == block.statements@,
                v0 == names_of(old(self).cur().variables@),
                i <= ss.len(),
                stmts_scoped(v0, ss.subrange(0, i as int)) == Some(names_of(self.cur().variables@)),
                self.stmt_done(*old(self), names_of(self.cur().variables@)),
            decreases block.statements@.len() - i,
        {
            let ghost before = *self;
            proof {
                assert(ss.subrange(0, i + 1).subrange(0, i as int) =~= ss.subrange(0, i as int));
            }
            match self.analyze_statement(&block.statements[i]) {
                Ok(()) => {},
                Err(e) => {
                    proof {
                        lemma_stmts_scoped_prefix(v0, ss, i + 1);
                    }
                    return Err(e);
                },
            }
            proof {
                lemma_stmt_done_trans(*old(self), before, *self, names_of(before.cur().variables@),
                    names_of(self.cur().variables@));
            }
            i = i + 1;
        }
        proof {
            assert(ss.subrange(0, ss.len() as int) =~= ss);
        }
        Ok(())
    }

    /// Analyze a statement: declarations are recorded in the current scope; blocks, `for`
    /// loops and catch handlers get scopes of their own
    fn analyze_statement(&mut self, statement: &Statement) -> (res: Result<()>)
        requires
            old(self).wf(),
        ensures
            final(self).grown_from(*old(self)),
            res is Ok <==> stmt_scoped(names_of(old(self).cur().variables@), *statement) is Some,
            res is Ok ==> final(self).stmt_done(*old(self), stmt_scoped(names_of(old(self).cur().variables@), *statement)->0),
        decreases statement,
    {
        match statement {
            Statement::VariableDecl(var) => self.analyze_variable_declaration(var),
            Statement::ConstantDecl(c) => self.analyze_constant_declaration(c),
            Statement::Block(block) => {
                self.enter_scope(statement.location());
                let ghost entered = *self;
                proof {
                    lemma_names_empty(self.cur().variables@);
                }
                match self.analyze_block_statement(block) {
                    Ok(()) => {},
                    Err(e) => {
                        return Err(e);
                    },
                }
                let ghost inner = *self;
                self.exit_scope();
                proof {
                    lemma_nested_back(*old(self), entered, inner, *self);
                }
                Ok(())
            },
            Statement::If(i) => self.analyze_if_statement(i),
            Statement::For(f) => self.analyze_for_statement(f),
            Statement::While(w) => self.analyze_while_statement(w),
            Statement::Match(m) => self.analyze_match_statement(m),
            Statement::Try(t) => self.analyze_try_statement(t),
            _ => Ok(()),
        }
    }

    /// Analyze variable declaration statement
    fn analyze_variable_declaration(&mut self, var: &VariableDeclStmt) -> (res: Result<()>)
        requires
            old(self).wf(),
        ensures
            final(self).grown_from(*old(self)),
            res is Ok <==> stmt_scoped(names_of(old(self).cur().variables@), Statement::VariableDecl(*var)) is Some,
            res is Ok ==> final(self).stmt_done(*old(self),
                stmt_scoped(names_of(old(self).cur().variables@), Statement::VariableDecl(*var))->0),
    {
        let var_info = VariableInfo {
            name: var.name.clone(),
            var_type: match &var.var_type {
                Some(t) => Some(t.clone()),
                None => None,
            },
            mutable: var.mutable,
            location: var.location,
            scope_level: self.current_scope_level(),
        };
        let name = var.name.clone();
        proof {
            assert(name@ == var.name@);
        }
        self.add_variable(name, var_info)?;
        proof {
            lemma_names_push(old(self).cur().variables@, name, var_info);
        }
        Ok(())
    }

    /// Analyze constant declaration statement
    fn analyze_constant_declaration(&mut self, const_: &ConstantDeclStmt) -> (res: Result<()>)
        requires
            old(self).wf(),
        ensures
            final(self).grown_from(*old(self)),
            res is Ok <==> stmt_scoped(names_of(old(self).cur().variables@), Statement::ConstantDecl(*const_)) is Some,
            res is Ok ==> final(self).stmt_done(*old(self),
                stmt_scoped(names_of(old(self).cur().variables@), Statement::ConstantDecl(*const_))->0),
    {
        let var_info = VariableInfo {
            name: const_.name.clone(),
            var_type: match &const_.const_type {
                Some(t) => Some(t.clone()),
                None => None,
            },
            mutable: false,
            location: const_.location,
            scope_level: self.current_scope_level(),
        };
        let name = const_.name.clone();
        proof {
            assert(name@ == const_.name@);
        }
        self.add_variable(name, var_info)?;
        proof {
            lemma_names_push(old(self).cur().variables@, name, var_info);
        }
        Ok(())
    }

    /// Analyze block statement: its statements, in the current scope
    fn analyze_block_statement(&mut self, block: &BlockStmt) -> (res: Result<()>)
        requires
            old(self).wf(),
        ensures
            final(self).grown_from(*old(self)),
            res is Ok <==> stmts_scoped(names_of(old(self).cur().variables@), block.statements@) is Some,
            res is Ok ==> final(self).stmt_done(*old(self), stmts_scoped(names_of(old(self).cur().variables@), block.statements@)->0),
        decreases block,
    {
        let ghost ss = block.statements@;
        let ghost v0 = names_of(old(self).cur().variables@);
        let mut i: usize = 0;
        while i < block.statements.len()
            invariant
                self.grown_from(*old(self)),
                ss == block.statements@,
                v0 == names_of(old(self).cur().variables@),
                i <= ss.len(),
                stmts_scoped(v0, ss.subrange(0, i as int)) == Some(names_of(self.cur().variables@)),
                self.stmt_done(*old(self), names_of(self.cur().variables@)),
            decreases block.statements@.len() - i,
        {
            let ghost before = *self;
            proof {
                assert(decreases_to!(block => block.statements@[i as int]));
                assert(ss.subrange(0, i + 1).subrange(0, i as int) =~= ss.subrange(0, i as int));
            }
            match self.analyze_statement(&block.statements[i]) {
                Ok(()) => {},
                Err(e) => {
                    proof {
                        lemma_stmts_scoped_prefix(v0, ss, i + 1);
                    }
                    return Err(e);
                },
            }
            proof {
                lemma_stmt_done_trans(*old(self), before, *self, names_of(before.cur().variables@),
                    names_of(self.cur().variables@));
            }
            i = i + 1;
        }
        proof {
            assert(ss.subrange(0, ss.len() as int) =~= ss);
        }
        Ok(())
    }

    /// Analyze if statement
    fn analyze_if_statement(&mut self, if_stmt: &IfStmt) -> (res: Result<()>)
        requires
            old(self).wf(),
        ensures
            final(self).grown_from(*old(self)),
            res is Ok <==> stmt_scoped(names_of(old(self).cur().variables@), Statement::If(*if_stmt)) is Some,
            res is Ok ==> final(self).stmt_done(*old(self),
                stmt_scoped(names_of(old(self).cur().variables@), Statement::If(*if_stmt))->0),
        decreases if_stmt,
    {
        self.analyze_statement(&if_stmt.then_branch)?;
        let ghost after_then = *self;
        match &if_stmt.else_branch {
            Some(else_branch) => {
                self.analyze_statement(else_branch)?;
                proof {
                    lemma_stmt_done_trans(*old(self), after_then, *self, names_of(after_then.cur().variables@),
                        names_of(self.cur().variables@));
                }
                Ok(())
            },
            None => Ok(()),
        }
    }

    /// Analyze for statement: the loop variable lives in a scope of its own
    fn analyze_for_statement(&mut self, for_stmt: &ForStmt) -> (res: Result<()>)
        requires
            old(self).wf(),
        ensures
            final(self).grown_from(*old(self)),
            res is Ok <==> stmt_scoped(names_of(old(self).cur().variables@), Statement::For(*for_stmt)) is Some,
            res is Ok ==> final(self).stmt_done(*old(self),
                stmt_scoped(names_of(old(self).cur().variables@), Statement::For(*for_stmt))->0),
        decreases for_stmt,
    {
        self.enter_scope(for_stmt.location);
        let ghost entered = *self;
        let var_info = VariableInfo {
            name: for_stmt.variable.clone(),
            var_type: None,
            mutable: false,
            location: for_stmt.location,
            scope_level: self.current_scope_level(),
        };
        let name = for_stmt.variable.clone();
        proof {
            assert(name@ == for_stmt.variable@);
            lemma_names_empty(self.cur().variables@);
            assert(assoc_get(self.cur().variables@, name@) is None);
        }
        match self.add_variable(name, var_info) {
            Ok(()) => {},
            Err(e) => {
                return Err(e);
            },
        }
        let ghost declared = *self;
        proof {
            lemma_names_push(entered.cur().variables@, name, var_info);
            assert(names_of(self.cur().variables@) == Set::<Seq<char>>::empty().insert(for_stmt.variable@));
        }
        match self.analyze_statement(&for_stmt.body) {
            Ok(()) => {},
            Err(e) => {
                return Err(e);
            },
        }
        proof {
            lemma_stmt_done_trans(entered, declared, *self, names_of(declared.cur().variables@),
                names_of(self.cur().variables@));
        }
        let ghost inner = *self;
        self.exit_scope();
        proof {
            lemma_nested_back(*old(self), entered, inner, *self);
        }
        Ok(())
    }

    /// Analyze while statement
    fn analyze_while_statement(&mut self, while_stmt: &WhileStmt) -> (res: Result<()>)
        requires
            old(self).wf(),
        ensures
            final(self).grown_from(*old(self)),
            res is Ok <==> stmt_scoped(names_of(old(self).cur().variables@), Statement::While(*while_stmt)) is Some,
            res is Ok ==> final(self).stmt_done(*old(self),
                stmt_scoped(names_of(old(self).cur().variables@), Statement::While(*while_stmt))->0),
        decreases while_stmt,
    {
        self.analyze_statement(&while_stmt.body)
    }

    /// Analyze match statement: each arm's body
    fn analyze_match_statement(&mut self, match_stmt: &MatchStmt) -> (res: Result<()>)
        requires
            old(self).wf(),
        ensures
            final(self).grown_from(*old(self)),
            res is Ok <==> stmt_scoped(names_of(old(self).cur().variables@), Statement::Match(*match_stmt)) is Some,
            res is Ok ==> final(self).stmt_done(*old(self),
                stmt_scoped(names_of(old(self).cur().variables@), Statement::Match(*match_stmt))->0),
        decreases match_stmt,
    {
        let ghost arms = match_stmt.arms@;
        let ghost v0 = names_of(old(self).cur().variables@);
        let mut i: usize = 0;
        while i < match_stmt.arms.len()
            invariant
                self.grown_from(*old(self)),
                arms == match_stmt.arms@,
                v0 == names_of(old(self).cur().variables@),
                i <= arms.len(),
                arms_scoped(v0, arms.subrange(0, i as int)) == Some(names_of(self.cur().variables@)),
                self.stmt_done(*old(self), names_of(self.cur().variables@)),
            decreases match_stmt.arms@.len() - i,
        {
            let ghost before = *self;
            proof {
                assert(decreases_to!(match_stmt => match_stmt.arms@[i as int].body));
                assert(arms.subrange(0, i + 1).subrange(0, i as int) =~= arms.subrange(0, i as int));
            }
            match self.analyze_statement(&match_stmt.arms[i].body) {
                Ok(()) => {},
                Err(e) => {
                    proof {
                        lemma_arms_scoped_prefix(v0, arms, i + 1);
                    }
                    return Err(e);
                },
            }
            proof {
                lemma_stmt_done_trans(*old(self), before, *self, names_of(before.cur().variables@),
                    names_of(self.cur().variables@));
            }
            i = i + 1;
        }
        proof {
            assert(arms.subrange(0, arms.len() as int) =~= arms);
        }
        Ok(())
    }

    /// Analyze try statement: each handler's variable lives in a scope of its own
    fn analyze_try_statement(&mut self, try_stmt: &TryStmt) -> (res: Result<()>)
        requires
            old(self).wf(),
        ensures
            final(self).grown_from(*old(self)),
            res is Ok <==> stmt_scoped(names_of(old(self).cur().variables@), Statement::Try(*try_stmt)) is Some,
            res is Ok ==> final(self).stmt_done(*old(self),
                stmt_scoped(names_of(old(self).cur().variables@), Statement::Try(*try_stmt))->0),
        decreases try_stmt,
    {
        self.analyze_statement(&try_stmt.try_block)?;
        let ghost after_try = *self;
        let ghost hs = try_stmt.catch_handlers@;
        let mut i: usize = 0;
        while i < try_stmt.catch_handlers.len()
            invariant
                self.grown_from(*old(self)),
                self.grown_from(after_try),
                hs == try_stmt.catch_handlers@,
                i <= hs.len(),
                after_try.grown_from(*old(self)),
                after_try.stmt_done(*old(self), names_of(after_try.cur().variables@)),
                handlers_scoped(hs.subrange(0, i as int)),
                self.stmt_done(after_try, names_of(after_try.cur().variables@)),
            decreases try_stmt.catch_handlers@.len() - i,
        {
            let handler = &try_stmt.catch_handlers[i];
            let ghost iter_start = *self;
            proof {
                assert(decreases_to!(try_stmt => try_stmt.catch_handlers@[i as int].body));
                assert(hs.subrange(0, i + 1).subrange(0, i as int) =~= hs.subrange(0, i as int));
            }
            self.enter_scope(handler.location);
            let ghost entered = *self;
            let var_info = VariableInfo {
                name: handler.variable.clone(),
                var_type: Some(handler.exception_type.clone()),
                mutable: false,
                location: handler.location,
                scope_level: self.current_scope_level(),
            };
            let name = handler.variable.clone();
            proof {
                assert(name@ == hs[i as int].variable@);
                lemma_names_empty(self.cur().variables@);
                assert(assoc_get(self.cur().variables@, name@) is None);
            }
            match self.add_variable(name, var_info) {
                Ok(()) => {},
                Err(e) => {
                    return Err(e);
                },
            }
            let ghost declared = *self;
            proof {
                lemma_names_push(entered.cur().variables@, name, var_info);
                assert(names_of(self.cur().variables@) == Set::<Seq<char>>::empty().insert(hs[i as int].variable@));
            }
            match self.analyze_statement(&handler.body) {
                Ok(()) => {},
                Err(e) => {
                    proof {
                        assert(!handlers_scoped(hs.subrange(0, i + 1)));
                        lemma_handlers_scoped_prefix(hs, i + 1);
                    }
                    return Err(e);
                },
            }
            proof {
                lemma_stmt_done_trans(entered, declared, *self, names_of(declared.cur().variables@),
                    names_of(self.cur().variables@));
            }
            let ghost inner = *self;
            self.exit_scope();
            proof {
                lemma_nested_back(iter_start, entered, inner, *self);
                lemma_stmt_done_trans(after_try, iter_start, *self, names_of(after_try.cur().variables@),
                    names_of(after_try.cur().variables@));
            }
            i = i + 1;
        }
        proof {
            assert(hs.subrange(0, hs.len() as int) =~= hs);
            lemma_stmt_done_trans(*old(self), after_try, *self, names_of(after_try.cur().variables@),
                names_of(after_try.cur().variables@));
        }
        Ok(())
    }
}

/// Entering a scope and leaving it brings the analyzer back where it stood.
pub proof fn lemma_enter_exit_back(a0: ScopeAnalyzer, a1: ScopeAnalyzer, a2: ScopeAnalyzer)
    requires
        a0.wf(),
        a1.current_index() == a0.all_scopes().len(),
        a1.stack() == a0.stack().push(a0.current_index() as usize),
        a2.current_index() == a1.stack().last(),
        a2.stack() == a1.stack().drop_last(),
    ensures
        a2.back_at(a0),
{
    assert(a2.stack() =~= a0.stack());
}

impl Default for ScopeAnalyzer {
    fn default() -> (res: Self)
        ensures
            res.wf(),
            res.all_scopes().len() == 1,
            res.current_index() == 0,
    {
        ScopeAnalyzer::new()
    }
}

} // verus!
