//! The semantic analyzer: the four phases of semantic analysis run in order over one program
use vstd::prelude::*;
use crate::ast::{Program, Declaration, VariableDecl};
use crate::error::{CompilerError, Location, Result};
use super::symbols::Symbol;
use super::symbol_table::{SymbolTable, assoc_get, duplicate_symbol_message, lemma_assoc_push};
use super::scope_analyzer::{ScopeAnalyzer, Scope, scope_names, no_names, decls_scoped};
use super::name_resolver::{NameResolver, ResolutionContext, decls_resolve};
use super::semantic_checker::{SemanticChecker, CheckingContext, room_for, program_checks, kinds, top_context};
use super::nesting::program_nesting;

verus! {

/// Whether a declaration enters the symbol table: every kind but implementation blocks.
pub open spec fn enters_table(d: Declaration) -> bool {
    !(d is Impl)
}

/// `name` is carried by one of the first `n` declarations of `ds` that enter the table.
pub open spec fn declared_before(ds: Seq<Declaration>, n: int, name: Seq<char>) -> bool {
    exists|k: int| 0 <= k < n && k < ds.len() && enters_table(#[trigger] ds[k]) && ds[k].spec_name() == name
}

/// Declaration `j` of `ds` can enter a scope holding `e`: its name is neither there nor
/// carried by an earlier declaration.
pub open spec fn decl_fresh(e: Seq<(String, Symbol)>, ds: Seq<Declaration>, j: int) -> bool {
    enters_table(ds[j]) ==> assoc_get(e, ds[j].spec_name()) is None && !declared_before(ds, j, ds[j].spec_name())
}

/// Every declaration of `ds` can enter a scope holding `e`.
pub open spec fn decls_fresh(e: Seq<(String, Symbol)>, ds: Seq<Declaration>) -> bool {
    forall|j: int| 0 <= j < ds.len() ==> #[trigger] decl_fresh(e, ds, j)
}

/// `err` is the error of a name declared twice in one scope, at `loc`.
pub open spec fn duplicate_error(err: CompilerError, name: Seq<char>, loc: Location) -> bool {
    err matches CompilerError::Semantic { line, column, message }
        && line == loc.line && column == loc.column && message@ == duplicate_symbol_message(name)
}

/// `err` is the error for the first declaration of `ds` that cannot enter a scope holding `e`.
pub open spec fn first_decl_clash(e: Seq<(String, Symbol)>, ds: Seq<Declaration>, err: CompilerError) -> bool {
    exists|j: int| 0 <= j < ds.len() && !#[trigger] decl_fresh(e, ds, j)
        && (forall|k: int| 0 <= k < j ==> decl_fresh(e, ds, k))
        && duplicate_error(err, ds[j].spec_name(), ds[j].spec_location())
}

/// Variable `v` of scope `s` comes before variable `b` of scope `a` in the order the scopes are
/// walked: scope by scope, each in declaration order.
pub open spec fn walked_before(a: int, b: int, s: int, v: int) -> bool {
    a < s || (a == s && b < v)
}

/// `name` is the name of a variable listed before variable `v` of scope `s`.
pub open spec fn local_before(scopes: Seq<Scope>, s: int, v: int, name: Seq<char>) -> bool {
    exists|a: int, b: int|
        0 <= a < scopes.len() && 0 <= b < scopes[a].variables@.len() && walked_before(a, b, s, v)
            && (#[trigger] scopes[a].variables@[b]).1.name@ == name
}

/// The name of variable `v` of scope `s`.
pub open spec fn local_name(scopes: Seq<Scope>, s: int, v: int) -> Seq<char> {
    scopes[s].variables@[v].1.name@
}

/// Variable `v` of scope `s` can enter a table scope whose names satisfy `taken`: its name is
/// not taken, nor the name of a variable listed before it.
pub open spec fn local_fresh(taken: spec_fn(Seq<char>) -> bool, scopes: Seq<Scope>, s: int, v: int) -> bool {
    !taken(local_name(scopes, s, v)) && !local_before(scopes, s, v, local_name(scopes, s, v))
}

/// Every variable of every scope can enter a table scope whose names satisfy `taken`.
pub open spec fn locals_fresh(taken: spec_fn(Seq<char>) -> bool, scopes: Seq<Scope>) -> bool {
    forall|s: int, v: int| 0 <= s < scopes.len() && 0 <= v < scopes[s].variables@.len()
        ==> #[trigger] local_fresh(taken, scopes, s, v)
}

/// The location of variable `v` of scope `s`.
pub open spec fn local_location(scopes: Seq<Scope>, s: int, v: int) -> Location {
    scopes[s].variables@[v].1.location
}

/// `err` is the error for the first variable, in the order the scopes are walked, that cannot
/// enter a table scope whose names satisfy `taken`.
pub open spec fn first_local_clash(taken: spec_fn(Seq<char>) -> bool, scopes: Seq<Scope>, err: CompilerError) -> bool {
    exists|s: int, v: int| 0 <= s < scopes.len() && 0 <= v < scopes[s].variables@.len()
        && !#[trigger] local_fresh(taken, scopes, s, v)
        && (forall|a: int, b: int| 0 <= a < scopes.len() && 0 <= b < scopes[a].variables@.len()
            && walked_before(a, b, s, v) ==> local_fresh(taken, scopes, a, b))
        && duplicate_error(err, local_name(scopes, s, v), local_location(scopes, s, v))
}

/// The names held by the table scope `e`.
pub open spec fn names_in(e: Seq<(String, Symbol)>) -> spec_fn(Seq<char>) -> bool {
    |m: Seq<char>| assoc_get(e, m) is Some
}

/// The names held by the table scope `e` once the declarations `ds` have entered it.
pub open spec fn names_after(e: Seq<(String, Symbol)>, ds: Seq<Declaration>) -> spec_fn(Seq<char>) -> bool {
    |m: Seq<char>| assoc_get(e, m) is Some || declared_before(ds, ds.len() as int, m)
}

/// Semantic analyzer for Nature language
pub struct SemanticAnalyzer {
    /// Symbol table
    symbol_table: SymbolTable,
    /// Scope analyzer
    scope_analyzer: ScopeAnalyzer,
    /// Name resolver
    name_resolver: NameResolver,
    /// Semantic checker
    semantic_checker: SemanticChecker,
    /// The symbol table as it stood when names were last resolved and checked against it
    resolved_table: Ghost<SymbolTable>,
}

impl SemanticAnalyzer {
    /// The symbol table.
    pub closed spec fn table(&self) -> SymbolTable {
        self.symbol_table
    }

    /// The scopes the scope analysis has made.
    pub closed spec fn scopes(&self) -> Seq<Scope> {
        self.scope_analyzer.all_scopes()
    }

    /// The scope in which the scope analysis declares a program's top-level names.
    pub closed spec fn analysis_scope(&self) -> Scope {
        self.scope_analyzer.cur()
    }

    /// The symbol table the last analysis resolved names and ran its checks against: the
    /// table once declarations and local variables had entered it.
    pub closed spec fn phase_table(&self) -> SymbolTable {
        self.resolved_table@
    }

    /// The name resolver's context.
    pub closed spec fn resolving(&self) -> ResolutionContext {
        self.name_resolver.ctx()
    }

    /// The context of the semantic checker.
    pub closed spec fn checking(&self) -> CheckingContext {
        self.semantic_checker.ctx()
    }

    /// The analyzer's invariant: that of its symbol table and of its scope analyzer.
    pub closed spec fn wf(&self) -> bool {
        self.symbol_table.wf() && self.scope_analyzer.wf()
    }

    /// Create a new semantic analyzer
    pub fn new() -> (res: Self)
        ensures
            res.wf(),
            res.table().level() == 0,
            res.table().scopes() == seq![Seq::<(String, Symbol)>::empty()],
            res.table().globals().len() == 0,
            res.scopes().len() == 1,
            res.scopes()[0].variables@.len() == 0,
            scope_names(res.analysis_scope()) == no_names(),
            res.checking() == top_context(),
            res.resolving().generic_params@.len() == 0,
            res.resolving().import_aliases@.len() == 0,
    {
        let symbol_table = SymbolTable::new();
        let ghost table = symbol_table;
        SemanticAnalyzer {
            resolved_table: Ghost(table),
            symbol_table,
            scope_analyzer: ScopeAnalyzer::new(),
            name_resolver: NameResolver::new(),
            semantic_checker: SemanticChecker::new(),
        }
    }

    /// Analyze a program for semantic correctness: build the symbol table from its
    /// declarations, analyze its scopes, add the variables of every scope to the symbol table,
    /// resolve its names and check it, stopping at the first phase that fails.
    pub fn analyze(&mut self, program: &Program) -> (res: Result<()>)
        requires
            old(self).wf(),
            room_for(old(self).checking(), program_nesting(*program)),
        ensures
            final(self).wf(),
            !decls_fresh(old(self).table().current(), program.declarations@) ==> res is Err
                && first_decl_clash(old(self).table().current(), program.declarations@, res->Err_0),
            res is Ok ==> decls_fresh(old(self).table().current(), program.declarations@)
                && locals_fresh(names_after(old(self).table().current(), program.declarations@), final(self).scopes())
                && final(self).checking() == old(self).checking()
                && final(self).table().level() == old(self).table().level()
                && final(self).table().globals() == old(self).table().globals(),
            res is Ok ==> program_checks(old(self).checking(), *program, kinds(final(self).table())),
            res is Ok ==> decls_scoped(scope_names(old(self).analysis_scope()), program.declarations@) is Some,
            res is Ok <==> {
                &&& decls_fresh(old(self).table().current(), program.declarations@)
                &&& decls_scoped(scope_names(old(self).analysis_scope()), program.declarations@) is Some
                &&& locals_fresh(names_after(old(self).table().current(), program.declarations@), final(self).scopes())
                &&& decls_resolve(old(self).resolving().generic_params@, old(self).resolving().import_aliases@,
                    program.declarations@, final(self).phase_table())
                &&& program_checks(old(self).checking(), *program, kinds(final(self).phase_table()))
            },
            decls_fresh(old(self).table().current(), program.declarations@)
                && decls_scoped(scope_names(old(self).analysis_scope()), program.declarations@) is Some
                && !locals_fresh(names_after(old(self).table().current(), program.declarations@), final(self).scopes())
                ==> res is Err && first_local_clash(names_after(old(self).table().current(), program.declarations@),
                    final(self).scopes(), res->Err_0),
            program.declarations@.len() == 0 ==> final(self).scopes() == old(self).scopes(),
            res is Ok ==> final(self).phase_table().scopes() == final(self).table().scopes()
                && final(self).phase_table().globals() == final(self).table().globals(),
            res is Ok ==> exists|t: SymbolTable| t.scopes() == final(self).table().scopes()
                && t.globals() == final(self).table().globals()
                && #[trigger] decls_resolve(old(self).resolving().generic_params@, old(self).resolving().import_aliases@,
                    program.declarations@, t),
            res is Ok ==> forall|m: Seq<char>|
                (#[trigger] assoc_get(final(self).table().current(), m) is Some) <==> (
                    names_after(old(self).table().current(), program.declarations@)(m)
                    || exists|s: int, v: int| 0 <= s < final(self).scopes().len()
                        && 0 <= v < final(self).scopes()[s].variables@.len()
                        && #[trigger] local_name(final(self).scopes(), s, v) == m),
    {
        let ghost e0 = self.table().current();
        let ghost ds = program.declarations@;
        self.build_symbol_table(program)?;
        let ghost eb = self.table().current();
        proof {
            assert(names_in(eb) =~= names_after(e0, ds));
        }
        self.analyze_scopes(program)?;
        self.add_local_variables_to_symbol_table()?;
        let ghost el = self.table().current();
        let ghost sc = self.scopes();
        let ghost t3 = self.table();
        let ghost r0 = self.resolving();
        self.resolved_table = Ghost(self.symbol_table);
        proof {
            assert(r0 == old(self).resolving());
            assert(self.checking() == old(self).checking());
            assert(locals_fresh(names_after(e0, ds), sc));
            assert(self.phase_table() == t3);
        }
        self.resolve_names(program)?;
        let ghost t4 = self.table();
        proof {
            assert(t4 == t3);
            assert(decls_resolve(r0.generic_params@, r0.import_aliases@, ds, self.phase_table()));
        }
        self.perform_semantic_checks(program)?;
        proof {
            assert(kinds(t4) =~= kinds(self.table()));
            assert(r0 == old(self).resolving());
            assert(t3.scopes() == self.table().scopes() && t3.globals() == self.table().globals()
                && decls_resolve(r0.generic_params@, r0.import_aliases@, ds, t3));
            assert(names_in(eb) =~= names_after(e0, ds));
            assert(self.table().current() == el);
            assert forall|m: Seq<char>|
                (#[trigger] assoc_get(self.table().current(), m) is Some) <==> (
                    names_after(e0, ds)(m)
                    || exists|s: int, v: int| 0 <= s < sc.len() && 0 <= v < sc[s].variables@.len()
                        && #[trigger] local_name(sc, s, v) == m) by {
                if local_before(sc, sc.len() as int, 0, m) {
                    let (a, b) = choose|a: int, b: int|
                        0 <= a < sc.len() && 0 <= b < sc[a].variables@.len() && walked_before(a, b, sc.len() as int, 0)
                            && (#[trigger] sc[a].variables@[b]).1.name@ == m;
                    assert(local_name(sc, a, b) == m);
                }
                if exists|s: int, v: int| 0 <= s < sc.len() && 0 <= v < sc[s].variables@.len()
                        && #[trigger] local_name(sc, s, v) == m {
                    let (a, b) = choose|s: int, v: int| 0 <= s < sc.len() && 0 <= v < sc[s].variables@.len()
                        && #[trigger] local_name(sc, s, v) == m;
                    assert(walked_before(a, b, sc.len() as int, 0));
                    assert(sc[a].variables@[b].1.name@ == m);
                }
            }
        }
        Ok(())
    }

    /// Enter one declaration into the symbol table's current scope; implementation blocks
    /// enter nothing.
    fn insert_declaration(table: &mut SymbolTable, declaration: &Declaration) -> (res: Result<()>)
        requires
            old(table).wf(),
        ensures
            final(table).wf(),
            res is Err <==> enters_table(*declaration) && assoc_get(old(table).current(), declaration.spec_name()) is Some,
            res is Err ==> *final(table) == *old(table)
                && duplicate_error(res->Err_0, declaration.spec_name(), declaration.spec_location()),
            res is Ok && enters_table(*declaration) ==> final(table).added(*old(table), final(table).current().last())
                && final(table).current().last().0@ == declaration.spec_name(),
            res is Ok && !enters_table(*declaration) ==> *final(table) == *old(table),
    {
        match declaration {
            Declaration::Function(func) => table.insert_function(func),
            Declaration::Variable(var) => table.insert_variable(var),
            Declaration::Constant(const_) => table.insert_constant(const_),
            Declaration::Type(type_) => table.insert_type(type_),
            Declaration::Struct(struct_) => table.insert_struct(struct_),
            Declaration::Interface(interface) => table.insert_interface(interface),
            Declaration::Import(import) => table.insert_import(import),
            Declaration::Impl(_) => Ok(()),
        }
    }

    /// Build symbol table from program
    fn build_symbol_table(&mut self, program: &Program) -> (res: Result<()>)
        requires
            old(self).wf(),
        ensures
            final(self).wf(),
            final(self).scope_analyzer == old(self).scope_analyzer,
            final(self).semantic_checker == old(self).semantic_checker,
            final(self).name_resolver == old(self).name_resolver,
            res is Ok <==> decls_fresh(old(self).table().current(), program.declarations@),
            res is Err ==> first_decl_clash(old(self).table().current(), program.declarations@, res->Err_0),
            res is Ok ==> final(self).table().level() == old(self).table().level()
                && final(self).table().globals() == old(self).table().globals()
                && final(self).table().scopes() == old(self).table().scopes().update(
                    old(self).table().level() as int, final(self).table().current())
                && forall|m: Seq<char>| #[trigger] assoc_get(final(self).table().current(), m) is Some
                    <==> names_after(old(self).table().current(), program.declarations@)(m),
    {
        let ghost ds = program.declarations@;
        let ghost t0 = self.symbol_table;
        let ghost e0 = t0.current();
        let mut i: usize = 0;
        while i < program.declarations.len()
            invariant
                ds == program.declarations@,
                i <= ds.len(),
                self.symbol_table.wf(),
                self.scope_analyzer == old(self).scope_analyzer,
                self.semantic_checker == old(self).semantic_checker,
                self.name_resolver == old(self).name_resolver,
                self.scope_analyzer.wf(),
                t0 == old(self).symbol_table,
                t0.wf(),
                e0 == t0.current(),
                self.symbol_table.level() == t0.level(),
                self.symbol_table.globals() == t0.globals(),
                self.symbol_table.scopes() == t0.scopes().update(t0.level() as int, self.symbol_table.current()),
                forall|j: int| 0 <= j < i ==> #[trigger] decl_fresh(e0, ds, j),
                forall|m: Seq<char>| #[trigger] assoc_get(self.symbol_table.current(), m) is Some
                    <==> (assoc_get(e0, m) is Some || declared_before(ds, i as int, m)),
            decreases ds.len() - i,
        {
            let ghost before = self.symbol_table;
            let ghost cur = before.current();
            let d = &program.declarations[i];
            let r = Self::insert_declaration(&mut self.symbol_table, d);
            match r {
                Err(e) => {
                    proof {
                        assert(!decl_fresh(e0, ds, i as int));
                        assert(first_decl_clash(e0, ds, e));
                        assert(!decls_fresh(e0, ds));
                    }
                    return Err(e);
                },
                Ok(()) => {
                    proof {
                        let ghost name = ds[i as int].spec_name();
                        if enters_table(ds[i as int]) {
                            let entry = self.symbol_table.current().last();
                            assert(self.symbol_table.scopes()[t0.level() as int]
                                == before.scopes().update(t0.level() as int, cur.push(entry))[t0.level() as int]);
                            assert(self.symbol_table.current() == cur.push(entry));
                            assert forall|m: Seq<char>| #[trigger] assoc_get(self.symbol_table.current(), m) is Some
                                <==> (assoc_get(e0, m) is Some || declared_before(ds, i + 1, m)) by {
                                lemma_assoc_push(cur, entry.0, entry.1, m);
                                if declared_before(ds, i + 1, m) && !declared_before(ds, i as int, m) {
                                    let k = choose|k: int| 0 <= k < i + 1 && k < ds.len()
                                        && enters_table(#[trigger] ds[k]) && ds[k].spec_name() == m;
                                    assert(k == i);
                                }
                                if declared_before(ds, i as int, m) {
                                    let k = choose|k: int| 0 <= k < i && k < ds.len()
                                        && enters_table(#[trigger] ds[k]) && ds[k].spec_name() == m;
                                    assert(0 <= k < i + 1 && enters_table(ds[k]) && ds[k].spec_name() == m);
                                }
                                if m == name {
                                    assert(enters_table(ds[i as int]) && ds[i as int].spec_name() == m);
                                }
                            }
                            assert(self.symbol_table.scopes() =~= t0.scopes().update(t0.level() as int, self.symbol_table.current()));
                        } else {
                            assert forall|m: Seq<char>| declared_before(ds, i + 1, m) <==> declared_before(ds, i as int, m) by {
                                if declared_before(ds, i + 1, m) {
                                    let k = choose|k: int| 0 <= k < i + 1 && k < ds.len()
                                        && enters_table(#[trigger] ds[k]) && ds[k].spec_name() == m;
                                    assert(k != i);
                                }
                                if declared_before(ds, i as int, m) {
                                    let k = choose|k: int| 0 <= k < i && k < ds.len()
                                        && enters_table(#[trigger] ds[k]) && ds[k].spec_name() == m;
                                    assert(0 <= k < i + 1 && enters_table(ds[k]) && ds[k].spec_name() == m);
                                }
                            }
                        }
                        assert(decl_fresh(e0, ds, i as int));
                    }
                },
            }
            i = i + 1;
        }
        Ok(())
    }

    /// Analyze scopes in the program
    fn analyze_scopes(&mut self, program: &Program) -> (res: Result<()>)
        requires
            old(self).wf(),
        ensures
            final(self).wf(),
            final(self).scope_analyzer.grown_from(old(self).scope_analyzer),
            res is Ok <==> decls_scoped(scope_names(old(self).analysis_scope()), program.declarations@) is Some,
            program.declarations@.len() == 0 ==> final(self).scope_analyzer == old(self).scope_analyzer,
            final(self).symbol_table == old(self).symbol_table,
            final(self).semantic_checker == old(self).semantic_checker,
            final(self).name_resolver == old(self).name_resolver,
    {
        self.scope_analyzer.analyze_program(program)
    }

    /// Add the variables of every scope the scope analysis made to the symbol table's current
    /// scope, scope by scope, each in declaration order
    fn add_local_variables_to_symbol_table(&mut self) -> (res: Result<()>)
        requires
            old(self).wf(),
        ensures
            final(self).wf(),
            final(self).scope_analyzer == old(self).scope_analyzer,
            final(self).semantic_checker == old(self).semantic_checker,
            final(self).name_resolver == old(self).name_resolver,
            res is Ok <==> locals_fresh(names_in(old(self).table().current()), old(self).scopes()),
            res is Err ==> first_local_clash(names_in(old(self).table().current()), old(self).scopes(), res->Err_0),
            res is Ok ==> final(self).table().level() == old(self).table().level()
                && final(self).table().globals() == old(self).table().globals()
                && final(self).table().scopes() == old(self).table().scopes().update(
                    old(self).table().level() as int, final(self).table().current())
                && forall|m: Seq<char>| #[trigger] assoc_get(final(self).table().current(), m) is Some
                    <==> (assoc_get(old(self).table().current(), m) is Some
                        || local_before(old(self).scopes(), old(self).scopes().len() as int, 0, m)),
    {
        let ghost t0 = self.symbol_table;
        let ghost e0 = t0.current();
        let ghost taken = names_in(e0);
        let scopes = self.scope_analyzer.scopes();
        let ghost sc = scopes@;
        let mut si: usize = 0;
        while si < scopes.len()
            invariant
                sc == scopes@,
                sc == self.scope_analyzer.all_scopes(),
                si <= sc.len(),
                self.symbol_table.wf(),
                self.scope_analyzer == old(self).scope_analyzer,
                self.semantic_checker == old(self).semantic_checker,
                self.name_resolver == old(self).name_resolver,
                self.scope_analyzer.wf(),
                t0 == old(self).symbol_table,
                t0.wf(),
                e0 == t0.current(),
                taken == names_in(e0),
                self.symbol_table.level() == t0.level(),
                self.symbol_table.globals() == t0.globals(),
                self.symbol_table.scopes() == t0.scopes().update(t0.level() as int, self.symbol_table.current()),
                forall|a: int, b: int| 0 <= a < sc.len() && 0 <= b < sc[a].variables@.len()
                    && walked_before(a, b, si as int, 0) ==> #[trigger] local_fresh(taken, sc, a, b),
                forall|m: Seq<char>| #[trigger] assoc_get(self.symbol_table.current(), m) is Some
                    <==> (taken(m) || local_before(sc, si as int, 0, m)),
            decreases sc.len() - si,
        {
            let scope = &scopes[si];
            let mut vi: usize = 0;
            while vi < scope.variables.len()
                invariant
                    sc == scopes@,
                    sc == self.scope_analyzer.all_scopes(),
                    si < sc.len(),
                    *scope == sc[si as int],
                    vi <= sc[si as int].variables@.len(),
                    self.symbol_table.wf(),
                    self.scope_analyzer == old(self).scope_analyzer,
                    self.semantic_checker == old(self).semantic_checker,
                    self.name_resolver == old(self).name_resolver,
                    self.scope_analyzer.wf(),
                    t0 == old(self).symbol_table,
                    t0.wf(),
                    e0 == t0.current(),
                    taken == names_in(e0),
                    self.symbol_table.level() == t0.level(),
                    self.symbol_table.globals() == t0.globals(),
                    self.symbol_table.scopes() == t0.scopes().update(t0.level() as int, self.symbol_table.current()),
                    forall|a: int, b: int| 0 <= a < sc.len() && 0 <= b < sc[a].variables@.len()
                        && walked_before(a, b, si as int, vi as int) ==> #[trigger] local_fresh(taken, sc, a, b),
                    forall|m: Seq<char>| #[trigger] assoc_get(self.symbol_table.current(), m) is Some
                        <==> (taken(m) || local_before(sc, si as int, vi as int, m)),
                decreases sc[si as int].variables@.len() - vi,
            {
                let var_info = &scope.variables[vi].1;
                let var_decl = VariableDecl {
                    name: var_info.name.clone(),
                    var_type: var_info.var_type.clone(),
                    initializer: None,
                    mutable: var_info.mutable,
                    location: var_info.location,
                };
                let ghost before = self.symbol_table;
                let ghost cur = before.current();
                let ghost name = local_name(sc, si as int, vi as int);
                let r = self.symbol_table.insert_variable(&var_decl);
                match r {
                    Err(e) => {
                        proof {
                            assert(!local_fresh(taken, sc, si as int, vi as int));
                            assert(first_local_clash(taken, sc, e));
                            assert(!locals_fresh(taken, sc));
                        }
                        return Err(e);
                    },
                    Ok(()) => {
                        proof {
                            let entry = self.symbol_table.current().last();
                            assert(self.symbol_table.current() == cur.push(entry));
                            assert(local_fresh(taken, sc, si as int, vi as int));
                            assert forall|m: Seq<char>| #[trigger] assoc_get(self.symbol_table.current(), m) is Some
                                <==> (taken(m) || local_before(sc, si as int, vi + 1, m)) by {
                                lemma_assoc_push(cur, entry.0, entry.1, m);
                                if local_before(sc, si as int, vi + 1, m) && !local_before(sc, si as int, vi as int, m) {
                                    let (a, b) = choose|a: int, b: int|
                                        0 <= a < sc.len() && 0 <= b < sc[a].variables@.len() && walked_before(a, b, si as int, vi + 1)
                                            && (#[trigger] sc[a].variables@[b]).1.name@ == m;
                                    assert(a == si && b == vi);
                                }
                                if local_before(sc, si as int, vi as int, m) {
                                    let (a, b) = choose|a: int, b: int|
                                        0 <= a < sc.len() && 0 <= b < sc[a].variables@.len() && walked_before(a, b, si as int, vi as int)
                                            && (#[trigger] sc[a].variables@[b]).1.name@ == m;
                                    assert(walked_before(a, b, si as int, vi + 1));
                                }
                                if m == name {
                                    assert(walked_before(si as int, vi as int, si as int, vi + 1));
                                    assert(sc[si as int].variables@[vi as int].1.name@ == m);
                                }
                            }
                            assert(self.symbol_table.scopes() =~= t0.scopes().update(t0.level() as int, self.symbol_table.current()));
                        }
                    },
                }
                vi = vi + 1;
            }
            proof {
                assert forall|m: Seq<char>| local_before(sc, si as int, vi as int, m) <==> local_before(sc, si + 1, 0, m) by {
                    if local_before(sc, si + 1, 0, m) {
                        let (a, b) = choose|a: int, b: int|
                            0 <= a < sc.len() && 0 <= b < sc[a].variables@.len() && walked_before(a, b, si + 1, 0)
                                && (#[trigger] sc[a].variables@[b]).1.name@ == m;
                        assert(walked_before(a, b, si as int, vi as int));
                    }
                    if local_before(sc, si as int, vi as int, m) {
                        let (a, b) = choose|a: int, b: int|
                            0 <= a < sc.len() && 0 <= b < sc[a].variables@.len() && walked_before(a, b, si as int, vi as int)
                                && (#[trigger] sc[a].variables@[b]).1.name@ == m;
                        assert(walked_before(a, b, si + 1, 0));
                    }
                }
            }
            si = si + 1;
        }
        Ok(())
    }

    /// Resolve names in the program
    fn resolve_names(&mut self, program: &Program) -> (res: Result<()>)
        requires
            old(self).wf(),
        ensures
            final(self).symbol_table == old(self).symbol_table,
            final(self).scope_analyzer == old(self).scope_analyzer,
            final(self).semantic_checker == old(self).semantic_checker,
            final(self).resolved_table == old(self).resolved_table,
            res is Ok <==> decls_resolve(old(self).resolving().generic_params@, old(self).resolving().import_aliases@,
                program.declarations@, old(self).table()),
    {
        self.name_resolver.resolve_program(program, &self.symbol_table)?;
        Ok(())
    }

    /// Perform semantic checks
    fn perform_semantic_checks(&mut self, program: &Program) -> (res: Result<()>)
        requires
            old(self).wf(),
            room_for(old(self).checking(), program_nesting(*program)),
        ensures
            final(self).wf(),
            final(self).scope_analyzer == old(self).scope_analyzer,
            final(self).resolved_table == old(self).resolved_table,
            res is Ok <==> program_checks(old(self).checking(), *program, kinds(old(self).table())),
            res is Ok ==> final(self).checking() == old(self).checking()
                && final(self).table().scopes() == old(self).table().scopes()
                && final(self).table().globals() == old(self).table().globals()
                && final(self).table().level() == old(self).table().level(),
    {
        self.semantic_checker.check_program(program, &mut self.symbol_table)
    }

    /// Get the symbol table
    pub fn symbol_table(&self) -> (res: &SymbolTable)
        ensures
            *res == self.table(),
    {
        &self.symbol_table
    }

    /// Get mutable reference to symbol table
    pub fn symbol_table_mut(&mut self) -> (res: &mut SymbolTable)
        requires
            old(self).wf(),
        ensures
            *res == old(self).table(),
            final(self).table() == *final(res),
            final(self).scopes() == old(self).scopes(),
            final(self).checking() == old(self).checking(),
            final(res).wf() ==> final(self).wf(),
    {
        &mut self.symbol_table
    }
}

} // verus!
