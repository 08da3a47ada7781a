//! Name resolution for Nature language
use vstd::prelude::*;
use crate::ast::{Program, Declaration, FunctionDecl, GenericParam, StructField, InterfaceMethod, VariableDecl, ConstantDecl, TypeDecl, StructDecl, InterfaceDecl, ImportDecl, ImplDecl, Block, Type, Parameter};
use crate::ast::expr::{Expression, CallExpr, MethodCallExpr, BinaryExpr, UnaryExpr, FieldAccessExpr, IndexAccessExpr, CastExpr, ArrayExpr, MapExpr, StructExpr, IfExpr, MatchExpr, LambdaExpr};
use crate::ast::stmt::{Statement, VariableDeclStmt, ConstantDeclStmt, AssignmentStmt, AssignmentTarget, IfStmt, ForStmt, WhileStmt, MatchStmt, ReturnStmt, BlockStmt};
use crate::error::{CompilerError, Result};
use crate::text::{concat3, text_eq};
use super::symbols::Symbol;
use super::symbol_table::{SymbolTable, assoc_get, find_entry, key_index};
use super::semantic_checker::{names_struct_or_type, unplaced_semantic};

verus! {

/// Some string of the list reads `name`.
pub open spec fn has_name(v: Seq<String>, name: Seq<char>) -> bool {
    exists|i: int| 0 <= i < v.len() && #[trigger] v[i]@ == name
}

/// Every name a type mentions resolves: a generic parameter in scope, or a declared struct,
/// interface or named type, as what it is used as.
pub open spec fn type_resolves(t: Type, generics: Seq<String>, st: SymbolTable) -> bool
    decreases t,
{
    match t {
        Type::Generic(name) => has_name(generics, name@) || names_struct_or_type(st, name@),
        Type::Array(a) => type_resolves(*a.element_type, generics, st),
        Type::MapOf(m) => type_resolves(*m.key_type, generics, st) && type_resolves(*m.value_type, generics, st),
        Type::Tuple(tt) => types_resolve(tt.element_types@, generics, st),
        Type::Struct(s) => names_struct_or_type(st, s.name@) && types_resolve(s.type_args@, generics, st),
        Type::Interface(i) => (st.spec_lookup(i.name@) matches Some(Symbol::Interface(_)))
            && types_resolve(i.type_args@, generics, st),
        Type::Function(f) => types_resolve(f.parameter_types@, generics, st) && match f.return_type {
            Some(r) => type_resolves(*r, generics, st),
            None => true,
        },
        Type::Pointer(p) => type_resolves(*p.pointee_type, generics, st),
        Type::Slice(s) => type_resolves(*s.element_type, generics, st),
        Type::Channel(c) => type_resolves(*c.element_type, generics, st),
        Type::Optional(o) => type_resolves(*o.inner_type, generics, st),
        Type::Error(e) => type_resolves(*e.inner_type, generics, st),
        Type::Union(u) => types_resolve(u.member_types@, generics, st),
        Type::Alias(a) => (st.spec_lookup(a.name@) matches Some(Symbol::Type(_)))
            && types_resolve(a.type_args@, generics, st),
        _ => true,
    }
}

/// Every type of a list resolves.
pub open spec fn types_resolve(ts: Seq<Type>, generics: Seq<String>, st: SymbolTable) -> bool
    decreases ts,
{
    if ts.len() == 0 {
        true
    } else {
        types_resolve(ts.subrange(0, ts.len() - 1), generics, st) && type_resolves(ts[ts.len() - 1], generics, st)
    }
}

/// `e` is a semantic error at `0:0` with message `m`.
pub open spec fn unplaced_semantic_error(e: CompilerError, m: Seq<char>) -> bool {
    e matches CompilerError::Semantic { line, column, message } && line == 0 && column == 0 && message@ == m
}

/// The message for the first name in a type, read left to right, that does not resolve.
pub open spec fn type_error_message(t: Type, generics: Seq<String>, st: SymbolTable) -> Seq<char>
    decreases t,
{
    match t {
        Type::Generic(name) => "Undefined generic type parameter '"@ + name@ + "'"@,
        Type::Array(a) => type_error_message(*a.element_type, generics, st),
        Type::MapOf(m) => if !type_resolves(*m.key_type, generics, st) {
            type_error_message(*m.key_type, generics, st)
        } else {
            type_error_message(*m.value_type, generics, st)
        },
        Type::Tuple(tt) => types_error_message(tt.element_types@, generics, st),
        Type::Struct(s) => if !names_struct_or_type(st, s.name@) {
            "Undefined struct type '"@ + s.name@ + "'"@
        } else {
            types_error_message(s.type_args@, generics, st)
        },
        Type::Interface(i) => if !(st.spec_lookup(i.name@) matches Some(Symbol::Interface(_))) {
            "Undefined interface type '"@ + i.name@ + "'"@
        } else {
            types_error_message(i.type_args@, generics, st)
        },
        Type::Function(f) => if !types_resolve(f.parameter_types@, generics, st) {
            types_error_message(f.parameter_types@, generics, st)
        } else {
            match f.return_type {
                Some(r) => type_error_message(*r, generics, st),
                None => Seq::empty(),
            }
        },
        Type::Pointer(p) => type_error_message(*p.pointee_type, generics, st),
        Type::Slice(sl) => type_error_message(*sl.element_type, generics, st),
        Type::Channel(c) => type_error_message(*c.element_type, generics, st),
        Type::Optional(o) => type_error_message(*o.inner_type, generics, st),
        Type::Error(e) => type_error_message(*e.inner_type, generics, st),
        Type::Union(u) => types_error_message(u.member_types@, generics, st),
        Type::Alias(a) => if !(st.spec_lookup(a.name@) matches Some(Symbol::Type(_))) {
            "Undefined type alias '"@ + a.name@ + "'"@
        } else {
            types_error_message(a.type_args@, generics, st)
        },
        _ => Seq::empty(),
    }
}

/// The message for the first type of a list that does not resolve.
pub open spec fn types_error_message(ts: Seq<Type>, generics: Seq<String>, st: SymbolTable) -> Seq<char>
    decreases ts,
{
    if ts.len() == 0 {
        Seq::empty()
    } else if !types_resolve(ts.subrange(0, ts.len() - 1), generics, st) {
        types_error_message(ts.subrange(0, ts.len() - 1), generics, st)
    } else {
        type_error_message(ts[ts.len() - 1], generics, st)
    }
}

/// When the types before `i` resolve and type `i` does not, the message for the list is that
/// for type `i`.
proof fn lemma_types_error_first(ts: Seq<Type>, i: int, n: int, g: Seq<String>, st: SymbolTable)
    requires
        0 <= i < n <= ts.len(),
        types_resolve(ts.subrange(0, i), g, st),
        !type_resolves(ts[i], g, st),
    ensures
        types_error_message(ts.subrange(0, n), g, st) == type_error_message(ts[i], g, st),
        !types_resolve(ts.subrange(0, n), g, st),
    decreases n - i,
{
    if n == i + 1 {
        assert(ts.subrange(0, n).subrange(0, i) =~= ts.subrange(0, i));
    } else {
        lemma_types_error_first(ts, i, n - 1, g, st);
        assert(ts.subrange(0, n).subrange(0, n - 1) =~= ts.subrange(0, n - 1));
    }
}


/// A name used as a value resolves, with generic parameters `g` and import aliases `a` in
/// scope: to a generic parameter, an import alias, or a declared variable or function.
pub open spec fn name_resolves(g: Seq<String>, a: Seq<(String, String)>, name: Seq<char>, st: SymbolTable) -> bool {
    ||| has_name(g, name)
    ||| assoc_get(a, name) is Some
    ||| (st.spec_lookup(name) matches Some(Symbol::Variable(_)))
    ||| (st.spec_lookup(name) matches Some(Symbol::Function(_)))
}

/// A variable reference resolves in a resolution context.
pub open spec fn reference_resolves(c: ResolutionContext, name: Seq<char>, st: SymbolTable) -> bool {
    name_resolves(c.generic_params@, c.import_aliases@, name, st)
}

/// An optional type resolves when it is absent or resolves.
pub open spec fn opt_type_resolves(t: Option<Type>, g: Seq<String>, st: SymbolTable) -> bool {
    match t {
        Some(t) => type_resolves(t, g, st),
        None => true,
    }
}

/// The types of parameters resolve.
pub open spec fn params_resolve(ps: Seq<Parameter>, g: Seq<String>, st: SymbolTable) -> bool {
    forall|i: int| 0 <= i < ps.len() ==> type_resolves(#[trigger] ps[i].param_type, g, st)
}

/// Every expression of a list resolves.
pub open spec fn exprs_resolve(g: Seq<String>, a: Seq<(String, String)>, es: Seq<Expression>, st: SymbolTable) -> bool
    decreases es,
{
    forall|i: int| 0 <= i < es.len() ==> expr_resolves(g, a, #[trigger] es[i], st)
}

/// Every name an expression uses resolves, with generic parameters `g` and import aliases `a`
/// in scope.
pub open spec fn expr_resolves(g: Seq<String>, a: Seq<(String, String)>, e: Expression, st: SymbolTable) -> bool
    decreases e,
{
    match e {
        Expression::Variable(name) => name_resolves(g, a, name@, st),
        Expression::Call(call) => expr_resolves(g, a, *call.callee, st)
            && types_resolve(call.type_args@, g, st)
            && exprs_resolve(g, a, call.arguments@, st),
        Expression::MethodCall(m) => expr_resolves(g, a, *m.object, st)
            && types_resolve(m.type_args@, g, st)
            && exprs_resolve(g, a, m.arguments@, st),
        Expression::Binary(b) => expr_resolves(g, a, *b.left, st) && expr_resolves(g, a, *b.right, st),
        Expression::Unary(u) => expr_resolves(g, a, *u.operand, st),
        Expression::FieldAccess(f) => expr_resolves(g, a, *f.object, st),
        Expression::IndexAccess(x) => expr_resolves(g, a, *x.object, st) && expr_resolves(g, a, *x.index, st),
        Expression::Cast(c) => expr_resolves(g, a, *c.expr, st) && type_resolves(c.target_type, g, st),
        Expression::Array(arr) => exprs_resolve(g, a, arr.elements@, st),
        Expression::MapLiteral(m) => forall|i: int| 0 <= i < m.entries@.len()
            ==> expr_resolves(g, a, #[trigger] m.entries@[i].key, st) && expr_resolves(g, a, m.entries@[i].value, st),
        Expression::Struct(se) => type_resolves(se.struct_type, g, st)
            && (forall|i: int| 0 <= i < se.fields@.len() ==> expr_resolves(g, a, #[trigger] se.fields@[i].value, st)),
        Expression::If(i) => expr_resolves(g, a, *i.condition, st) && expr_resolves(g, a, *i.then_branch, st)
            && match i.else_branch {
                Some(e) => expr_resolves(g, a, *e, st),
                None => true,
            },
        Expression::Match(m) => expr_resolves(g, a, *m.expr, st)
            && (forall|i: int| 0 <= i < m.arms@.len() ==> (match #[trigger] m.arms@[i].guard {
                Some(gd) => expr_resolves(g, a, gd, st),
                None => true,
            }) && expr_resolves(g, a, m.arms@[i].body, st)),
        Expression::Lambda(l) => params_resolve(l.parameters@, g, st)
            && opt_type_resolves(l.return_type, g, st)
            && expr_resolves(g, a, *l.body, st),
        _ => true,
    }
}

/// An optional expression resolves when it is absent or resolves.
pub open spec fn opt_expr_resolves(g: Seq<String>, a: Seq<(String, String)>, e: Option<Expression>, st: SymbolTable) -> bool {
    match e {
        Some(e) => expr_resolves(g, a, e, st),
        None => true,
    }
}

/// An assignment target resolves: a variable assigned to is a declared variable.
pub open spec fn target_resolves(g: Seq<String>, a: Seq<(String, String)>, t: AssignmentTarget, st: SymbolTable) -> bool {
    match t {
        AssignmentTarget::Variable(name) => st.spec_lookup(name@) matches Some(Symbol::Variable(_)),
        AssignmentTarget::FieldAccess(f) => expr_resolves(g, a, f.object, st),
        AssignmentTarget::IndexAccess(x) => expr_resolves(g, a, x.object, st) && expr_resolves(g, a, x.index, st),
    }
}

/// Every name a statement uses resolves, with generic parameters `g` and import aliases `a`
/// in scope.
pub open spec fn stmt_resolves(g: Seq<String>, a: Seq<(String, String)>, s: Statement, st: SymbolTable) -> bool
    decreases s,
{
    match s {
        Statement::Expression(e) => expr_resolves(g, a, e, st),
        Statement::VariableDecl(v) => opt_type_resolves(v.var_type, g, st) && opt_expr_resolves(g, a, v.initializer, st),
        Statement::ConstantDecl(c) => opt_type_resolves(c.const_type, g, st) && expr_resolves(g, a, c.value, st),
        Statement::Assignment(asg) => target_resolves(g, a, asg.target, st) && expr_resolves(g, a, asg.value, st),
        Statement::If(i) => expr_resolves(g, a, i.condition, st) && stmt_resolves(g, a, *i.then_branch, st)
            && match i.else_branch {
                Some(e) => stmt_resolves(g, a, *e, st),
                None => true,
            },
        Statement::For(f) => expr_resolves(g, a, f.iterable, st) && stmt_resolves(g, a, *f.body, st),
        Statement::While(w) => expr_resolves(g, a, w.condition, st) && stmt_resolves(g, a, *w.body, st),
        Statement::Match(m) => expr_resolves(g, a, m.expr, st)
            && (forall|i: int| 0 <= i < m.arms@.len()
                ==> opt_expr_resolves(g, a, #[trigger] m.arms@[i].guard, st) && stmt_resolves(g, a, m.arms@[i].body, st)),
        Statement::Return(r) => opt_expr_resolves(g, a, r.value, st),
        Statement::Block(b) => stmts_resolve(g, a, b.statements@, st),
        _ => true,
    }
}

/// Every statement of a list resolves.
pub open spec fn stmts_resolve(g: Seq<String>, a: Seq<(String, String)>, ss: Seq<Statement>, st: SymbolTable) -> bool
    decreases ss,
{
    forall|i: int| 0 <= i < ss.len() ==> stmt_resolves(g, a, #[trigger] ss[i], st)
}

/// The generic parameters in scope inside a declaration with generic parameters `gps`: those
/// in scope outside it, then its own.
pub open spec fn with_generics(g: Seq<String>, gps: Seq<GenericParam>) -> Seq<String> {
    g + gps.map_values(|p: GenericParam| p.name)
}

/// Every name a function uses resolves: the types of its parameters and result, and its body,
/// with its own generic parameters in scope.
pub open spec fn function_resolves(g: Seq<String>, a: Seq<(String, String)>, f: FunctionDecl, st: SymbolTable) -> bool {
    let g2 = with_generics(g, f.generics@);
    &&& params_resolve(f.parameters@, g2, st)
    &&& opt_type_resolves(f.return_type, g2, st)
    &&& match f.body {
        Some(b) => stmts_resolve(g2, a, b.statements@, st),
        None => true,
    }
}

/// The types of struct fields resolve.
pub open spec fn fields_resolve(fs: Seq<StructField>, g: Seq<String>, st: SymbolTable) -> bool {
    forall|i: int| 0 <= i < fs.len() ==> type_resolves(#[trigger] fs[i].field_type, g, st)
}

/// Every function of a list resolves.
pub open spec fn functions_resolve(g: Seq<String>, a: Seq<(String, String)>, fs: Seq<FunctionDecl>, st: SymbolTable) -> bool {
    forall|j: int| 0 <= j < fs.len() ==> function_resolves(g, a, #[trigger] fs[j], st)
}

/// The types of interface methods' parameters and results resolve.
pub open spec fn interface_methods_resolve(ms: Seq<InterfaceMethod>, g: Seq<String>, st: SymbolTable) -> bool {
    forall|i: int| 0 <= i < ms.len()
        ==> params_resolve(#[trigger] ms[i].parameters@, g, st) && opt_type_resolves(ms[i].return_type, g, st)
}

/// Every name a declaration uses resolves, with generic parameters `g` and import aliases `a`
/// in scope.
pub open spec fn decl_resolves(g: Seq<String>, a: Seq<(String, String)>, d: Declaration, st: SymbolTable) -> bool {
    match d {
        Declaration::Function(f) => function_resolves(g, a, f, st),
        Declaration::Variable(v) => opt_type_resolves(v.var_type, g, st) && opt_expr_resolves(g, a, v.initializer, st),
        Declaration::Constant(c) => opt_type_resolves(c.const_type, g, st) && expr_resolves(g, a, c.value, st),
        Declaration::Type(t) => type_resolves(t.type_def, g, st),
        Declaration::Struct(sd) => {
            let g2 = with_generics(g, sd.generics@);
            fields_resolve(sd.fields@, g2, st) && functions_resolve(g2, a, sd.methods@, st)
        },
        Declaration::Interface(id) => interface_methods_resolve(id.methods@, with_generics(g, id.generics@), st),
        Declaration::Import(_) => true,
        Declaration::Impl(im) => functions_resolve(g, a, im.methods@, st),
    }
}

/// The import aliases `a` with `key` standing for `v`: in place of the first entry under `key`,
/// or added at the end.
pub open spec fn alias_put(a: Seq<(String, String)>, key: String, v: String) -> Seq<(String, String)> {
    let k = key_index(a, key@, 0);
    if k < a.len() { a.update(k, (key, v)) } else { a.push((key, v)) }
}

/// The import aliases in scope after a declaration: an import with an alias adds it.
pub open spec fn aliases_after(a: Seq<(String, String)>, d: Declaration) -> Seq<(String, String)> {
    match d {
        Declaration::Import(i) => match i.alias {
            Some(al) => alias_put(a, al, i.path),
            None => a,
        },
        _ => a,
    }
}

/// Every declaration of a list resolves, each with the import aliases of the ones before it
/// added.
pub open spec fn decls_resolve(g: Seq<String>, a: Seq<(String, String)>, ds: Seq<Declaration>, st: SymbolTable) -> bool
    decreases ds.len(),
{
    if ds.len() == 0 {
        true
    } else {
        decl_resolves(g, a, ds[0], st) && decls_resolve(g, aliases_after(a, ds[0]), ds.drop_first(), st)
    }
}

/// Name resolver for Nature language
pub struct NameResolver {
    /// Current resolution context
    context: ResolutionContext,
}

/// Resolution context
#[derive(Debug)]
pub struct ResolutionContext {
    /// Current scope level
    pub current_scope: usize,
    /// Import aliases, each with the path it stands for
    pub import_aliases: Vec<(String, String)>,
    /// Generic type parameters
    pub generic_params: Vec<String>,
}

/// `b` is `a` with possibly more import aliases: the same generic parameters and scope.
pub open spec fn same_frame(a: ResolutionContext, b: ResolutionContext) -> bool {
    a.current_scope == b.current_scope && a.generic_params == b.generic_params
}

impl NameResolver {
    /// The resolution context.
    pub closed spec fn ctx(&self) -> ResolutionContext {
        self.context
    }

    /// The generic parameters in scope.
    pub open spec fn generics(&self) -> Seq<String> {
        self.ctx().generic_params@
    }

    /// The import aliases in scope.
    pub open spec fn aliases(&self) -> Seq<(String, String)> {
        self.ctx().import_aliases@
    }

    /// Create a new name resolver
    pub fn new() -> (res: Self)
        ensures
            res.ctx().current_scope == 0,
            res.ctx().import_aliases@.len() == 0,
            res.ctx().generic_params@.len() == 0,
    {
        NameResolver {
            context: ResolutionContext { current_scope: 0, import_aliases: Vec::new(), generic_params: Vec::new() },
        }
    }

    /// The resolution context
    pub fn context(&self) -> (res: &ResolutionContext)
        ensures
            *res == self.ctx(),
    {
        &self.context
    }

    /// Add a generic type parameter to the context
    pub fn add_generic_param(&mut self, name: String)
        ensures
            final(self).ctx().generic_params@ == old(self).ctx().generic_params@.push(name),
            final(self).ctx().import_aliases == old(self).ctx().import_aliases,
            final(self).ctx().current_scope == old(self).ctx().current_scope,
    {
        self.context.generic_params.push(name);
    }

    /// Resolve names in a program
    pub fn resolve_program(&mut self, program: &Program, symbol_table: &SymbolTable) -> (res: Result<()>)
        requires
            symbol_table.wf(),
        ensures
            res is Ok ==> same_frame(old(self).ctx(), final(self).ctx()),
            res is Err ==> res->Err_0 is Semantic,
            res is Ok <==> decls_resolve(old(self).generics(), old(self).aliases(), program.declarations@, *symbol_table),
    {
        let ghost ds = program.declarations@;
        let ghost g = self.generics();
        proof {
            assert(ds.skip(0) =~= ds);
        }
        let mut i: usize = 0;
        while i < program.declarations.len()
            invariant
                ds == program.declarations@,
                i <= ds.len(),
                symbol_table.wf(),
                same_frame(old(self).ctx(), self.ctx()),
                g == old(self).generics(),
                decls_resolve(g, old(self).aliases(), ds, *symbol_table)
                    == decls_resolve(g, self.aliases(), ds.skip(i as int), *symbol_table),
            decreases ds.len() - i,
        {
            proof {
                assert(ds.skip(i as int)[0] == ds[i as int]);
                assert(ds.skip(i as int).drop_first() =~= ds.skip(i + 1));
            }
            self.resolve_declaration(&program.declarations[i], symbol_table)?;
            i = i + 1;
        }
        proof {
            assert(ds.skip(i as int).len() == 0);
        }
        Ok(())
    }

    /// Resolve names in a declaration
    fn resolve_declaration(&mut self, declaration: &Declaration, symbol_table: &SymbolTable) -> (res: Result<()>)
        requires
            symbol_table.wf(),
        ensures
            res is Ok ==> same_frame(old(self).ctx(), final(self).ctx()),
            res is Ok ==> final(self).aliases() == aliases_after(old(self).aliases(), *declaration),
            res is Err ==> res->Err_0 is Semantic,
            res is Ok <==> decl_resolves(old(self).generics(), old(self).aliases(), *declaration, *symbol_table),
    {
        match declaration {
            Declaration::Function(func) => self.resolve_function(func, symbol_table),
            Declaration::Variable(var) => self.resolve_variable(var, symbol_table),
            Declaration::Constant(c) => self.resolve_constant(c, symbol_table),
            Declaration::Type(t) => {
                let r = self.resolve_type_declaration(t, symbol_table);
                proof {
                    if r is Err {
                        assert(unplaced_semantic(r->Err_0));
                    }
                }
                r
            },
            Declaration::Struct(s) => self.resolve_struct(s, symbol_table),
            Declaration::Interface(i) => self.resolve_interface(i, symbol_table),
            Declaration::Import(i) => self.resolve_import(i, symbol_table),
            Declaration::Impl(i) => self.resolve_impl(i, symbol_table),
        }
    }

    /// The context's generic parameters with `generics`' names added.
    fn extended_generics(&self, generics: &Vec<GenericParam>) -> (res: Vec<String>)
        ensures
            res@ == with_generics(self.generics(), generics@),
    {
        let ghost g = self.generics();
        let mut names: Vec<String> = Vec::new();
        let mut i: usize = 0;
        while i < self.context.generic_params.len()
            invariant
                g == self.generics(),
                i <= g.len(),
                names@ == g.take(i as int),
            decreases g.len() - i,
        {
            names.push(self.context.generic_params[i].clone());
            proof {
                assert(g.take(i + 1) =~= g.take(i as int).push(g[i as int]));
            }
            i = i + 1;
        }
        proof {
            assert(g.take(g.len() as int) =~= g);
        }
        let ghost ns = generics@.map_values(|p: GenericParam| p.name);
        let mut j: usize = 0;
        while j < generics.len()
            invariant
                g == self.generics(),
                ns == generics@.map_values(|p: GenericParam| p.name),
                j <= generics@.len(),
                names@ == g + ns.take(j as int),
            decreases generics@.len() - j,
        {
            names.push(generics[j].name.clone());
            proof {
                assert(ns.take(j + 1) =~= ns.take(j as int).push(ns[j as int]));
                assert(g + ns.take(j + 1) =~= (g + ns.take(j as int)).push(ns[j as int]));
            }
            j = j + 1;
        }
        proof {
            assert(ns.take(generics@.len() as int) =~= ns);
        }
        names
    }

    /// Resolve names in a function, its generic parameters being in scope
    fn resolve_function(&mut self, func: &FunctionDecl, symbol_table: &SymbolTable) -> (res: Result<()>)
        requires
            symbol_table.wf(),
        ensures
            res is Ok ==> final(self).ctx() == old(self).ctx(),
            res is Err ==> res->Err_0 is Semantic,
            res is Ok <==> function_resolves(old(self).generics(), old(self).aliases(), *func, *symbol_table),
    {
        let ghost g2 = with_generics(self.generics(), func.generics@);
        let mut generics = self.extended_generics(&func.generics);
        std::mem::swap(&mut self.context.generic_params, &mut generics);
        let ghost inner = self.ctx();
        assert(self.generics() == g2);
        let mut i: usize = 0;
        while i < func.parameters.len()
            invariant
                symbol_table.wf(),
                self.ctx() == inner,
                inner.generic_params@ == g2,
                g2 == with_generics(old(self).generics(), func.generics@),
                inner.import_aliases == old(self).ctx().import_aliases,
                forall|k: int| 0 <= k < i ==> type_resolves(#[trigger] func.parameters@[k].param_type, g2, *symbol_table),
            decreases func.parameters@.len() - i,
        {
            match self.resolve_type(&func.parameters[i].param_type, symbol_table) {
                Ok(()) => {},
                Err(e) => {
                    proof {
                        assert(!type_resolves(func.parameters@[i as int].param_type, g2, *symbol_table));
                    }
                    return Err(e);
                },
            }
            i = i + 1;
        }
        match &func.return_type {
            Some(t) => {
                self.resolve_type(t, symbol_table)?;
            },
            None => {},
        }
        match &func.body {
            Some(body) => {
                self.resolve_block(body, symbol_table)?;
            },
            None => {},
        }
        std::mem::swap(&mut self.context.generic_params, &mut generics);
        Ok(())
    }

    /// Resolve names in a variable declaration
    fn resolve_variable(&mut self, var: &VariableDecl, symbol_table: &SymbolTable) -> (res: Result<()>)
        requires
            symbol_table.wf(),
        ensures
            *final(self) == *old(self),
            res is Err ==> res->Err_0 is Semantic,
            res is Ok <==> decl_resolves(old(self).generics(), old(self).aliases(), Declaration::Variable(*var), *symbol_table),
    {
        match &var.var_type {
            Some(t) => {
                self.resolve_type(t, symbol_table)?;
            },
            None => {},
        }
        match &var.initializer {
            Some(e) => self.resolve_expression(e, symbol_table),
            None => Ok(()),
        }
    }

    /// Resolve names in a constant declaration
    fn resolve_constant(&mut self, const_: &ConstantDecl, symbol_table: &SymbolTable) -> (res: Result<()>)
        requires
            symbol_table.wf(),
        ensures
            *final(self) == *old(self),
            res is Err ==> res->Err_0 is Semantic,
            res is Ok <==> decl_resolves(old(self).generics(), old(self).aliases(), Declaration::Constant(*const_), *symbol_table),
    {
        match &const_.const_type {
            Some(t) => {
                self.resolve_type(t, symbol_table)?;
            },
            None => {},
        }
        self.resolve_expression(&const_.value, symbol_table)
    }

    /// Resolve names in a type declaration
    fn resolve_type_declaration(&mut self, type_: &TypeDecl, symbol_table: &SymbolTable) -> (res: Result<()>)
        requires
            symbol_table.wf(),
        ensures
            *final(self) == *old(self),
            res is Ok <==> type_resolves(type_.type_def, old(self).ctx().generic_params@, *symbol_table),
            res is Err ==> unplaced_semantic(res->Err_0),
    {
        self.resolve_type(&type_.type_def, symbol_table)
    }

    /// Resolve names in a struct declaration, its generic parameters being in scope
    fn resolve_struct(&mut self, struct_: &StructDecl, symbol_table: &SymbolTable) -> (res: Result<()>)
        requires
            symbol_table.wf(),
        ensures
            res is Ok ==> final(self).ctx() == old(self).ctx(),
            res is Err ==> res->Err_0 is Semantic,
            res is Ok <==> decl_resolves(old(self).generics(), old(self).aliases(), Declaration::Struct(*struct_), *symbol_table),
    {
        let ghost g2 = with_generics(self.generics(), struct_.generics@);
        let mut generics = self.extended_generics(&struct_.generics);
        std::mem::swap(&mut self.context.generic_params, &mut generics);
        let ghost inner = self.ctx();
        assert(self.generics() == g2);
        let mut i: usize = 0;
        while i < struct_.fields.len()
            invariant
                symbol_table.wf(),
                self.ctx() == inner,
                inner.generic_params@ == g2,
                g2 == with_generics(old(self).generics(), struct_.generics@),
                forall|k: int| 0 <= k < i ==> type_resolves(#[trigger] struct_.fields@[k].field_type, g2, *symbol_table),
            decreases struct_.fields@.len() - i,
        {
            match self.resolve_type(&struct_.fields[i].field_type, symbol_table) {
                Ok(()) => {},
                Err(e) => {
                    proof {
                        assert(!type_resolves(struct_.fields@[i as int].field_type, g2, *symbol_table));
                        assert(!fields_resolve(struct_.fields@, g2, *symbol_table));
                    }
                    return Err(e);
                },
            }
            i = i + 1;
        }
        let mut j: usize = 0;
        while j < struct_.methods.len()
            invariant
                symbol_table.wf(),
                self.ctx() == inner,
                inner.generic_params@ == g2,
                g2 == with_generics(old(self).generics(), struct_.generics@),
                inner.import_aliases == old(self).ctx().import_aliases,
                forall|k: int| 0 <= k < struct_.fields@.len() ==> type_resolves(#[trigger] struct_.fields@[k].field_type, g2, *symbol_table),
                forall|k: int| 0 <= k < j ==> function_resolves(g2, old(self).aliases(), #[trigger] struct_.methods@[k], *symbol_table),
            decreases struct_.methods@.len() - j,
        {
            match self.resolve_function(&struct_.methods[j], symbol_table) {
                Ok(()) => {},
                Err(e) => {
                    proof {
                        assert(!function_resolves(g2, old(self).aliases(), struct_.methods@[j as int], *symbol_table));
                        assert(!functions_resolve(g2, old(self).aliases(), struct_.methods@, *symbol_table));
                    }
                    return Err(e);
                },
            }
            j = j + 1;
        }
        std::mem::swap(&mut self.context.generic_params, &mut generics);
        Ok(())
    }

    /// Resolve names in an interface declaration, its generic parameters being in scope
    fn resolve_interface(&mut self, interface: &InterfaceDecl, symbol_table: &SymbolTable) -> (res: Result<()>)
        requires
            symbol_table.wf(),
        ensures
            res is Ok ==> final(self).ctx() == old(self).ctx(),
            res is Err ==> res->Err_0 is Semantic,
            res is Ok <==> decl_resolves(old(self).generics(), old(self).aliases(), Declaration::Interface(*interface), *symbol_table),
    {
        let ghost g2 = with_generics(self.generics(), interface.generics@);
        let mut generics = self.extended_generics(&interface.generics);
        std::mem::swap(&mut self.context.generic_params, &mut generics);
        let ghost inner = self.ctx();
        assert(self.generics() == g2);
        let mut i: usize = 0;
        while i < interface.methods.len()
            invariant
                symbol_table.wf(),
                self.ctx() == inner,
                inner.generic_params@ == g2,
                g2 == with_generics(old(self).generics(), interface.generics@),
                forall|k: int| 0 <= k < i ==> params_resolve(#[trigger] interface.methods@[k].parameters@, g2, *symbol_table)
                    && opt_type_resolves(interface.methods@[k].return_type, g2, *symbol_table),
            decreases interface.methods@.len() - i,
        {
            let method = &interface.methods[i];
            let mut k: usize = 0;
            while k < method.parameters.len()
                invariant
                    symbol_table.wf(),
                    self.ctx() == inner,
                    inner.generic_params@ == g2,
                    g2 == with_generics(old(self).generics(), interface.generics@),
                    i < interface.methods@.len(),
                    *method == interface.methods@[i as int],
                    forall|q: int| 0 <= q < k ==> type_resolves(#[trigger] method.parameters@[q].param_type, g2, *symbol_table),
                decreases method.parameters@.len() - k,
            {
                match self.resolve_type(&method.parameters[k].param_type, symbol_table) {
                    Ok(()) => {},
                    Err(e) => {
                        proof {
                            assert(!type_resolves(method.parameters@[k as int].param_type, g2, *symbol_table));
                            assert(!params_resolve(interface.methods@[i as int].parameters@, g2, *symbol_table));
                            assert(!interface_methods_resolve(interface.methods@, g2, *symbol_table));
                        }
                        return Err(e);
                    },
                }
                k = k + 1;
            }
            match &method.return_type {
                Some(t) => {
                    match self.resolve_type(t, symbol_table) {
                        Ok(()) => {},
                        Err(e) => {
                            proof {
                                assert(!opt_type_resolves(interface.methods@[i as int].return_type, g2, *symbol_table));
                                assert(!interface_methods_resolve(interface.methods@, g2, *symbol_table));
                            }
                            return Err(e);
                        },
                    }
                },
                None => {},
            }
            i = i + 1;
        }
        std::mem::swap(&mut self.context.generic_params, &mut generics);
        Ok(())
    }

    /// Resolve names in an import declaration: its alias, if any, now stands for its path
    fn resolve_import(&mut self, import: &ImportDecl, symbol_table: &SymbolTable) -> (res: Result<()>)
        ensures
            res is Ok,
            same_frame(old(self).ctx(), final(self).ctx()),
            final(self).aliases() == aliases_after(old(self).aliases(), Declaration::Import(*import)),
            match import.alias {
                Some(a) => assoc_get(final(self).ctx().import_aliases@, a@) == Some(import.path),
                None => final(self).ctx().import_aliases == old(self).ctx().import_aliases,
            },
    {
        match &import.alias {
            Some(alias) => {
                match find_entry(&self.context.import_aliases, alias.as_str()) {
                    Some(i) => {
                        let ghost old_aliases = self.context.import_aliases@;
                        self.context.import_aliases.set(i, (alias.clone(), import.path.clone()));
                        proof {
                            super::symbol_table::lemma_assoc_set(old_aliases, i as int, (*alias, import.path));
                        }
                    },
                    None => {
                        let ghost old_aliases = self.context.import_aliases@;
                        self.context.import_aliases.push((alias.clone(), import.path.clone()));
                        proof {
                            super::symbol_table::lemma_assoc_push(old_aliases, *alias, import.path, alias@);
                        }
                    },
                }
                Ok(())
            },
            None => Ok(()),
        }
    }

    /// Resolve names in an implementation declaration: its methods
    fn resolve_impl(&mut self, impl_: &ImplDecl, symbol_table: &SymbolTable) -> (res: Result<()>)
        requires
            symbol_table.wf(),
        ensures
            res is Ok ==> final(self).ctx() == old(self).ctx(),
            res is Err ==> res->Err_0 is Semantic,
            res is Ok <==> decl_resolves(old(self).generics(), old(self).aliases(), Declaration::Impl(*impl_), *symbol_table),
    {
        let mut j: usize = 0;
        while j < impl_.methods.len()
            invariant
                symbol_table.wf(),
                self.ctx() == old(self).ctx(),
                forall|k: int| 0 <= k < j ==> function_resolves(old(self).generics(), old(self).aliases(), #[trigger] impl_.methods@[k], *symbol_table),
            decreases impl_.methods@.len() - j,
        {
            match self.resolve_function(&impl_.methods[j], symbol_table) {
                Ok(()) => {},
                Err(e) => {
                    proof {
                        assert(!function_resolves(old(self).generics(), old(self).aliases(), impl_.methods@[j as int], *symbol_table));
                        assert(!functions_resolve(old(self).generics(), old(self).aliases(), impl_.methods@, *symbol_table));
                    }
                    return Err(e);
                },
            }
            j = j + 1;
        }
        Ok(())
    }

    /// Resolve names in a block
    fn resolve_block(&mut self, block: &Block, symbol_table: &SymbolTable) -> (res: Result<()>)
        requires
            symbol_table.wf(),
        ensures
            *final(self) == *old(self),
            res is Err ==> res->Err_0 is Semantic,
            res is Ok <==> stmts_resolve(old(self).generics(), old(self).aliases(), block.statements@, *symbol_table),
    {
        self.resolve_statements(&block.statements, symbol_table)
    }

    /// Resolve names in a statement
    fn resolve_statement(&mut self, statement: &Statement, symbol_table: &SymbolTable) -> (res: Result<()>)
        requires
            symbol_table.wf(),
        ensures
            *final(self) == *old(self),
            res is Err ==> res->Err_0 is Semantic,
            res is Ok <==> stmt_resolves(old(self).generics(), old(self).aliases(), *statement, *symbol_table),
        decreases statement,
    {
        match statement {
            Statement::Expression(expr) => self.resolve_expression(expr, symbol_table),
            Statement::VariableDecl(var) => self.resolve_variable_declaration(var, symbol_table),
            Statement::ConstantDecl(c) => self.resolve_constant_declaration(c, symbol_table),
            Statement::Assignment(assign) => self.resolve_assignment(assign, symbol_table),
            Statement::If(i) => self.resolve_if_statement(i, symbol_table),
            Statement::For(f) => self.resolve_for_statement(f, symbol_table),
            Statement::While(w) => self.resolve_while_statement(w, symbol_table),
            Statement::Match(m) => self.resolve_match_statement(m, symbol_table),
            Statement::Return(r) => self.resolve_return_statement(r, symbol_table),
            Statement::Block(b) => self.resolve_block_statement(b, symbol_table),
            _ => Ok(()),
        }
    }

    /// Resolve names in a variable declaration statement
    fn resolve_variable_declaration(&mut self, var: &VariableDeclStmt, symbol_table: &SymbolTable) -> (res: Result<()>)
        requires
            symbol_table.wf(),
        ensures
            *final(self) == *old(self),
            res is Err ==> res->Err_0 is Semantic,
            res is Ok <==> stmt_resolves(old(self).generics(), old(self).aliases(), Statement::VariableDecl(*var), *symbol_table),
    {
        match &var.var_type {
            Some(t) => {
                self.resolve_type(t, symbol_table)?;
            },
            None => {},
        }
        match &var.initializer {
            Some(e) => self.resolve_expression(e, symbol_table),
            None => Ok(()),
        }
    }

    /// Resolve names in a constant declaration statement
    fn resolve_constant_declaration(&mut self, const_: &ConstantDeclStmt, symbol_table: &SymbolTable) -> (res: Result<()>)
        requires
            symbol_table.wf(),
        ensures
            *final(self) == *old(self),
            res is Err ==> res->Err_0 is Semantic,
            res is Ok <==> stmt_resolves(old(self).generics(), old(self).aliases(), Statement::ConstantDecl(*const_), *symbol_table),
    {
        match &const_.const_type {
            Some(t) => {
                self.resolve_type(t, symbol_table)?;
            },
            None => {},
        }
        self.resolve_expression(&const_.value, symbol_table)
    }

    /// Resolve names in an assignment statement
    fn resolve_assignment(&mut self, assign: &AssignmentStmt, symbol_table: &SymbolTable) -> (res: Result<()>)
        requires
            symbol_table.wf(),
        ensures
            *final(self) == *old(self),
            res is Err ==> res->Err_0 is Semantic,
            res is Ok <==> stmt_resolves(old(self).generics(), old(self).aliases(), Statement::Assignment(*assign), *symbol_table),
    {
        self.resolve_assignment_target(&assign.target, symbol_table)?;
        self.resolve_expression(&assign.value, symbol_table)
    }

    /// Resolve names in an assignment target: a variable assigned to must be declared
    pub fn resolve_assignment_target(&mut self, target: &AssignmentTarget, symbol_table: &SymbolTable) -> (res: Result<()>)
        requires
            symbol_table.wf(),
        ensures
            *final(self) == *old(self),
            res is Err ==> res->Err_0 is Semantic,
            res is Ok <==> target_resolves(old(self).generics(), old(self).aliases(), *target, *symbol_table),
            target matches AssignmentTarget::Variable(name) ==> (res is Err <==>
                !(symbol_table.spec_lookup(name@) matches Some(Symbol::Variable(_)))),
    {
        match target {
            AssignmentTarget::Variable(name) => {
                if symbol_table.lookup_variable(name.as_str()).is_none() {
                    let message = concat3("Undefined variable '", name.as_str(), "'");
                    return Err(CompilerError::semantic(0, 0, message.as_str()));
                }
                Ok(())
            },
            AssignmentTarget::FieldAccess(field_access) => self.resolve_expression(&field_access.object, symbol_table),
            AssignmentTarget::IndexAccess(index_access) => {
                self.resolve_expression(&index_access.object, symbol_table)?;
                self.resolve_expression(&index_access.index, symbol_table)
            },
        }
    }

    /// Resolve names in an if statement
    fn resolve_if_statement(&mut self, if_stmt: &IfStmt, symbol_table: &SymbolTable) -> (res: Result<()>)
        requires
            symbol_table.wf(),
        ensures
            *final(self) == *old(self),
            res is Err ==> res->Err_0 is Semantic,
            res is Ok <==> stmt_resolves(old(self).generics(), old(self).aliases(), Statement::If(*if_stmt), *symbol_table),
        decreases if_stmt,
    {
        self.resolve_expression(&if_stmt.condition, symbol_table)?;
        self.resolve_statement(&if_stmt.then_branch, symbol_table)?;
        match &if_stmt.else_branch {
            Some(e) => self.resolve_statement(e, symbol_table),
            None => Ok(()),
        }
    }

    /// Resolve names in a for statement
    fn resolve_for_statement(&mut self, for_stmt: &ForStmt, symbol_table: &SymbolTable) -> (res: Result<()>)
        requires
            symbol_table.wf(),
        ensures
            *final(self) == *old(self),
            res is Err ==> res->Err_0 is Semantic,
            res is Ok <==> stmt_resolves(old(self).generics(), old(self).aliases(), Statement::For(*for_stmt), *symbol_table),
        decreases for_stmt,
    {
        self.resolve_expression(&for_stmt.iterable, symbol_table)?;
        self.resolve_statement(&for_stmt.body, symbol_table)
    }

    /// Resolve names in a while statement
    fn resolve_while_statement(&mut self, while_stmt: &WhileStmt, symbol_table: &SymbolTable) -> (res: Result<()>)
        requires
            symbol_table.wf(),
        ensures
            *final(self) == *old(self),
            res is Err ==> res->Err_0 is Semantic,
            res is Ok <==> stmt_resolves(old(self).generics(), old(self).aliases(), Statement::While(*while_stmt), *symbol_table),
        decreases while_stmt,
    {
        self.resolve_expression(&while_stmt.condition, symbol_table)?;
        self.resolve_statement(&while_stmt.body, symbol_table)
    }

    /// Resolve names in a match statement
    fn resolve_match_statement(&mut self, match_stmt: &MatchStmt, symbol_table: &SymbolTable) -> (res: Result<()>)
        requires
            symbol_table.wf(),
        ensures
            *final(self) == *old(self),
            res is Err ==> res->Err_0 is Semantic,
            res is Ok <==> stmt_resolves(old(self).generics(), old(self).aliases(), Statement::Match(*match_stmt), *symbol_table),
        decreases match_stmt,
    {
        self.resolve_expression(&match_stmt.expr, symbol_table)?;
        let mut i: usize = 0;
        while i < match_stmt.arms.len()
            invariant
                symbol_table.wf(),
                *self == *old(self),
                forall|k: int| 0 <= k < i ==> opt_expr_resolves(old(self).generics(), old(self).aliases(), #[trigger] match_stmt.arms@[k].guard, *symbol_table) && stmt_resolves(old(self).generics(), old(self).aliases(), match_stmt.arms@[k].body, *symbol_table),
            decreases match_stmt.arms@.len() - i,
        {
            let arm = &match_stmt.arms[i];
            proof {
                assert(decreases_to!(match_stmt => match_stmt.arms@[i as int].body));
            }
            match &arm.guard {
                Some(guard) => {
                    self.resolve_expression(guard, symbol_table)?;
                },
                None => {},
            }
            self.resolve_statement(&arm.body, symbol_table)?;
            i = i + 1;
        }
        Ok(())
    }

    /// Resolve names in a return statement
    fn resolve_return_statement(&mut self, return_stmt: &ReturnStmt, symbol_table: &SymbolTable) -> (res: Result<()>)
        requires
            symbol_table.wf(),
        ensures
            *final(self) == *old(self),
            res is Err ==> res->Err_0 is Semantic,
            res is Ok <==> stmt_resolves(old(self).generics(), old(self).aliases(), Statement::Return(*return_stmt), *symbol_table),
    {
        match &return_stmt.value {
            Some(v) => self.resolve_expression(v, symbol_table),
            None => Ok(()),
        }
    }

    /// Resolve names in a block statement
    fn resolve_block_statement(&mut self, block: &BlockStmt, symbol_table: &SymbolTable) -> (res: Result<()>)
        requires
            symbol_table.wf(),
        ensures
            *final(self) == *old(self),
            res is Err ==> res->Err_0 is Semantic,
            res is Ok <==> stmt_resolves(old(self).generics(), old(self).aliases(), Statement::Block(*block), *symbol_table),
        decreases block,
    {
        proof {
            assert(decreases_to!(block => block.statements@));
        }
        self.resolve_statements(&block.statements, symbol_table)
    }

    /// Resolve the statements of a list
    fn resolve_statements(&mut self, statements: &Vec<Statement>, symbol_table: &SymbolTable) -> (res: Result<()>)
        requires
            symbol_table.wf(),
        ensures
            *final(self) == *old(self),
            res is Err ==> res->Err_0 is Semantic,
            res is Ok <==> stmts_resolve(old(self).generics(), old(self).aliases(), statements@, *symbol_table),
        decreases statements@,
    {
        let mut i: usize = 0;
        while i < statements.len()
            invariant
                symbol_table.wf(),
                *self == *old(self),
                forall|k: int| 0 <= k < i ==> stmt_resolves(old(self).generics(), old(self).aliases(), #[trigger] statements@[k], *symbol_table),
            decreases statements@.len() - i,
        {
            proof {
                assert(decreases_to!(statements@ => statements@[i as int]));
            }
            self.resolve_statement(&statements[i], symbol_table)?;
            i = i + 1;
        }
        Ok(())
    }

    /// Resolve the expressions of a list
    fn resolve_expressions(&mut self, exprs: &Vec<Expression>, symbol_table: &SymbolTable) -> (res: Result<()>)
        requires
            symbol_table.wf(),
        ensures
            *final(self) == *old(self),
            res is Err ==> res->Err_0 is Semantic,
            res is Ok <==> exprs_resolve(old(self).generics(), old(self).aliases(), exprs@, *symbol_table),
        decreases exprs@,
    {
        let mut i: usize = 0;
        while i < exprs.len()
            invariant
                symbol_table.wf(),
                *self == *old(self),
                forall|k: int| 0 <= k < i ==> expr_resolves(old(self).generics(), old(self).aliases(), #[trigger] exprs@[k], *symbol_table),
            decreases exprs@.len() - i,
        {
            proof {
                assert(decreases_to!(exprs@ => exprs@[i as int]));
            }
            self.resolve_expression(&exprs[i], symbol_table)?;
            i = i + 1;
        }
        Ok(())
    }

    /// Resolve names in an expression
    fn resolve_expression(&mut self, expr: &Expression, symbol_table: &SymbolTable) -> (res: Result<()>)
        requires
            symbol_table.wf(),
        ensures
            *final(self) == *old(self),
            res is Err ==> res->Err_0 is Semantic,
            res is Ok <==> expr_resolves(old(self).generics(), old(self).aliases(), *expr, *symbol_table),
        decreases expr,
    {
        match expr {
            Expression::Variable(name) => self.resolve_variable_reference(name.as_str(), symbol_table),
            Expression::Call(call) => self.resolve_call_expression(call, symbol_table),
            Expression::MethodCall(method_call) => self.resolve_method_call_expression(method_call, symbol_table),
            Expression::Binary(binary) => self.resolve_binary_expression(binary, symbol_table),
            Expression::Unary(unary) => self.resolve_unary_expression(unary, symbol_table),
            Expression::FieldAccess(field_access) => self.resolve_field_access_expression(field_access, symbol_table),
            Expression::IndexAccess(index_access) => self.resolve_index_access_expression(index_access, symbol_table),
            Expression::Cast(cast) => self.resolve_cast_expression(cast, symbol_table),
            Expression::Array(array) => self.resolve_array_expression(array, symbol_table),
            Expression::MapLiteral(map) => self.resolve_map_expression(map, symbol_table),
            Expression::Struct(struct_expr) => self.resolve_struct_expression(struct_expr, symbol_table),
            Expression::If(if_expr) => self.resolve_if_expression(if_expr, symbol_table),
            Expression::Match(match_expr) => self.resolve_match_expression(match_expr, symbol_table),
            Expression::Lambda(lambda) => self.resolve_lambda_expression(lambda, symbol_table),
            _ => Ok(()),
        }
    }

    /// Whether the context holds a generic parameter of this name.
    fn is_generic_param(&self, name: &str) -> (res: bool)
        ensures
            res == has_name(self.ctx().generic_params@, name@),
    {
        let mut i: usize = 0;
        while i < self.context.generic_params.len()
            invariant
                i <= self.ctx().generic_params@.len(),
                forall|k: int| 0 <= k < i ==> self.ctx().generic_params@[k]@ != name@,
            decreases self.ctx().generic_params@.len() - i,
        {
            if text_eq(self.context.generic_params[i].as_str(), name) {
                return true;
            }
            i = i + 1;
        }
        false
    }

    /// Resolve a variable reference: a generic parameter, an import alias, or a declared
    /// variable or function
    pub fn resolve_variable_reference(&mut self, name: &str, symbol_table: &SymbolTable) -> (res: Result<()>)
        requires
            symbol_table.wf(),
        ensures
            *final(self) == *old(self),
            res is Ok <==> reference_resolves(old(self).ctx(), name@, *symbol_table),
            res is Err ==> unplaced_semantic(res->Err_0)
                && (res->Err_0 matches CompilerError::Semantic { message, .. }
                && message@ == "Undefined variable '"@ + name@ + "'"@),
    {
        if self.is_generic_param(name) {
            return Ok(());
        }
        if find_entry(&self.context.import_aliases, name).is_some() {
            return Ok(());
        }
        if symbol_table.lookup_variable(name).is_none() && symbol_table.lookup_function(name).is_none() {
            let message = concat3("Undefined variable '", name, "'");
            return Err(CompilerError::semantic(0, 0, message.as_str()));
        }
        Ok(())
    }

    /// Resolve a call expression
    fn resolve_call_expression(&mut self, call: &CallExpr, symbol_table: &SymbolTable) -> (res: Result<()>)
        requires
            symbol_table.wf(),
        ensures
            *final(self) == *old(self),
            res is Err ==> res->Err_0 is Semantic,
            res is Ok <==> expr_resolves(old(self).generics(), old(self).aliases(), Expression::Call(*call), *symbol_table),
        decreases call,
    {
        self.resolve_expression(&call.callee, symbol_table)?;
        self.resolve_types(&call.type_args, symbol_table)?;
        self.resolve_expressions(&call.arguments, symbol_table)
    }

    /// Resolve a method call expression
    fn resolve_method_call_expression(&mut self, method_call: &MethodCallExpr, symbol_table: &SymbolTable) -> (res: Result<()>)
        requires
            symbol_table.wf(),
        ensures
            *final(self) == *old(self),
            res is Err ==> res->Err_0 is Semantic,
            res is Ok <==> expr_resolves(old(self).generics(), old(self).aliases(), Expression::MethodCall(*method_call), *symbol_table),
        decreases method_call,
    {
        self.resolve_expression(&method_call.object, symbol_table)?;
        self.resolve_types(&method_call.type_args, symbol_table)?;
        self.resolve_expressions(&method_call.arguments, symbol_table)
    }

    /// Resolve a binary expression
    fn resolve_binary_expression(&mut self, binary: &BinaryExpr, symbol_table: &SymbolTable) -> (res: Result<()>)
        requires
            symbol_table.wf(),
        ensures
            *final(self) == *old(self),
            res is Err ==> res->Err_0 is Semantic,
            res is Ok <==> expr_resolves(old(self).generics(), old(self).aliases(), Expression::Binary(*binary), *symbol_table),
        decreases binary,
    {
        self.resolve_expression(&binary.left, symbol_table)?;
        self.resolve_expression(&binary.right, symbol_table)
    }

    /// Resolve a unary expression
    fn resolve_unary_expression(&mut self, unary: &UnaryExpr, symbol_table: &SymbolTable) -> (res: Result<()>)
        requires
            symbol_table.wf(),
        ensures
            *final(self) == *old(self),
            res is Err ==> res->Err_0 is Semantic,
            res is Ok <==> expr_resolves(old(self).generics(), old(self).aliases(), Expression::Unary(*unary), *symbol_table),
        decreases unary,
    {
        self.resolve_expression(&unary.operand, symbol_table)
    }

    /// Resolve a field access expression
    fn resolve_field_access_expression(&mut self, field_access: &FieldAccessExpr, symbol_table: &SymbolTable) -> (res: Result<()>)
        requires
            symbol_table.wf(),
        ensures
            *final(self) == *old(self),
            res is Err ==> res->Err_0 is Semantic,
            res is Ok <==> expr_resolves(old(self).generics(), old(self).aliases(), Expression::FieldAccess(*field_access), *symbol_table),
        decreases field_access,
    {
        self.resolve_expression(&field_access.object, symbol_table)
    }

    /// Resolve an index access expression
    fn resolve_index_access_expression(&mut self, index_access: &IndexAccessExpr, symbol_table: &SymbolTable) -> (res: Result<()>)
        requires
            symbol_table.wf(),
        ensures
            *final(self) == *old(self),
            res is Err ==> res->Err_0 is Semantic,
            res is Ok <==> expr_resolves(old(self).generics(), old(self).aliases(), Expression::IndexAccess(*index_access), *symbol_table),
        decreases index_access,
    {
        self.resolve_expression(&index_access.object, symbol_table)?;
        self.resolve_expression(&index_access.index, symbol_table)
    }

    /// Resolve a cast expression
    fn resolve_cast_expression(&mut self, cast: &CastExpr, symbol_table: &SymbolTable) -> (res: Result<()>)
        requires
            symbol_table.wf(),
        ensures
            *final(self) == *old(self),
            res is Err ==> res->Err_0 is Semantic,
            res is Ok <==> expr_resolves(old(self).generics(), old(self).aliases(), Expression::Cast(*cast), *symbol_table),
        decreases cast,
    {
        self.resolve_expression(&cast.expr, symbol_table)?;
        self.resolve_type(&cast.target_type, symbol_table)
    }

    /// Resolve an array expression
    fn resolve_array_expression(&mut self, array: &ArrayExpr, symbol_table: &SymbolTable) -> (res: Result<()>)
        requires
            symbol_table.wf(),
        ensures
            *final(self) == *old(self),
            res is Err ==> res->Err_0 is Semantic,
            res is Ok <==> expr_resolves(old(self).generics(), old(self).aliases(), Expression::Array(*array), *symbol_table),
        decreases array,
    {
        self.resolve_expressions(&array.elements, symbol_table)
    }

    /// Resolve a map expression
    fn resolve_map_expression(&mut self, map: &MapExpr, symbol_table: &SymbolTable) -> (res: Result<()>)
        requires
            symbol_table.wf(),
        ensures
            *final(self) == *old(self),
            res is Err ==> res->Err_0 is Semantic,
            res is Ok <==> expr_resolves(old(self).generics(), old(self).aliases(), Expression::MapLiteral(*map), *symbol_table),
        decreases map,
    {
        let mut i: usize = 0;
        while i < map.entries.len()
            invariant
                symbol_table.wf(),
                *self == *old(self),
                forall|k: int| 0 <= k < i ==> expr_resolves(old(self).generics(), old(self).aliases(), #[trigger] map.entries@[k].key, *symbol_table) && expr_resolves(old(self).generics(), old(self).aliases(), map.entries@[k].value, *symbol_table),
            decreases map.entries@.len() - i,
        {
            proof {
                assert(decreases_to!(map => map.entries@[i as int].key));
                assert(decreases_to!(map => map.entries@[i as int].value));
            }
            self.resolve_expression(&map.entries[i].key, symbol_table)?;
            self.resolve_expression(&map.entries[i].value, symbol_table)?;
            i = i + 1;
        }
        Ok(())
    }

    /// Resolve a struct expression
    fn resolve_struct_expression(&mut self, struct_expr: &StructExpr, symbol_table: &SymbolTable) -> (res: Result<()>)
        requires
            symbol_table.wf(),
        ensures
            *final(self) == *old(self),
            res is Err ==> res->Err_0 is Semantic,
            res is Ok <==> expr_resolves(old(self).generics(), old(self).aliases(), Expression::Struct(*struct_expr), *symbol_table),
        decreases struct_expr,
    {
        self.resolve_type(&struct_expr.struct_type, symbol_table)?;
        let mut i: usize = 0;
        while i < struct_expr.fields.len()
            invariant
                symbol_table.wf(),
                *self == *old(self),
                forall|k: int| 0 <= k < i ==> expr_resolves(old(self).generics(), old(self).aliases(), #[trigger] struct_expr.fields@[k].value, *symbol_table),
            decreases struct_expr.fields@.len() - i,
        {
            proof {
                assert(decreases_to!(struct_expr => struct_expr.fields@[i as int].value));
            }
            self.resolve_expression(&struct_expr.fields[i].value, symbol_table)?;
            i = i + 1;
        }
        Ok(())
    }

    /// Resolve an if expression
    fn resolve_if_expression(&mut self, if_expr: &IfExpr, symbol_table: &SymbolTable) -> (res: Result<()>)
        requires
            symbol_table.wf(),
        ensures
            *final(self) == *old(self),
            res is Err ==> res->Err_0 is Semantic,
            res is Ok <==> expr_resolves(old(self).generics(), old(self).aliases(), Expression::If(*if_expr), *symbol_table),
        decreases if_expr,
    {
        self.resolve_expression(&if_expr.condition, symbol_table)?;
        self.resolve_expression(&if_expr.then_branch, symbol_table)?;
        match &if_expr.else_branch {
            Some(e) => self.resolve_expression(e, symbol_table),
            None => Ok(()),
        }
    }

    /// Resolve a match expression
    fn resolve_match_expression(&mut self, match_expr: &MatchExpr, symbol_table: &SymbolTable) -> (res: Result<()>)
        requires
            symbol_table.wf(),
        ensures
            *final(self) == *old(self),
            res is Err ==> res->Err_0 is Semantic,
            res is Ok <==> expr_resolves(old(self).generics(), old(self).aliases(), Expression::Match(*match_expr), *symbol_table),
        decreases match_expr,
    {
        self.resolve_expression(&match_expr.expr, symbol_table)?;
        let mut i: usize = 0;
        while i < match_expr.arms.len()
            invariant
                symbol_table.wf(),
                *self == *old(self),
                forall|k: int| 0 <= k < i ==> (match #[trigger] match_expr.arms@[k].guard {
                    Some(gd) => expr_resolves(old(self).generics(), old(self).aliases(), gd, *symbol_table),
                    None => true,
                }) && expr_resolves(old(self).generics(), old(self).aliases(), match_expr.arms@[k].body, *symbol_table),
            decreases match_expr.arms@.len() - i,
        {
            let arm = &match_expr.arms[i];
            proof {
                assert(decreases_to!(match_expr => match_expr.arms@[i as int].body));
            }
            match &arm.guard {
                Some(guard) => {
                    proof {
                        assert(decreases_to!(match_expr => match_expr.arms@[i as int].guard->0));
                    }
                    self.resolve_expression(guard, symbol_table)?;
                },
                None => {},
            }
            self.resolve_expression(&arm.body, symbol_table)?;
            i = i + 1;
        }
        Ok(())
    }

    /// Resolve a lambda expression
    fn resolve_lambda_expression(&mut self, lambda: &LambdaExpr, symbol_table: &SymbolTable) -> (res: Result<()>)
        requires
            symbol_table.wf(),
        ensures
            *final(self) == *old(self),
            res is Err ==> res->Err_0 is Semantic,
            res is Ok <==> expr_resolves(old(self).generics(), old(self).aliases(), Expression::Lambda(*lambda), *symbol_table),
        decreases lambda,
    {
        let mut i: usize = 0;
        while i < lambda.parameters.len()
            invariant
                symbol_table.wf(),
                *self == *old(self),
                forall|k: int| 0 <= k < i ==> type_resolves(#[trigger] lambda.parameters@[k].param_type, old(self).generics(), *symbol_table),
            decreases lambda.parameters@.len() - i,
        {
            self.resolve_type(&lambda.parameters[i].param_type, symbol_table)?;
            i = i + 1;
        }
        match &lambda.return_type {
            Some(t) => {
                self.resolve_type(t, symbol_table)?;
            },
            None => {},
        }
        self.resolve_expression(&lambda.body, symbol_table)
    }

    /// Resolve the types of a list
    fn resolve_types(&mut self, types: &Vec<Type>, symbol_table: &SymbolTable) -> (res: Result<()>)
        requires
            symbol_table.wf(),
        ensures
            *final(self) == *old(self),
            res is Ok <==> types_resolve(types@, old(self).ctx().generic_params@, *symbol_table),
            res is Err ==> unplaced_semantic_error(res->Err_0,
                types_error_message(types@, old(self).ctx().generic_params@, *symbol_table)),
        decreases types@,
    {
        let ghost g = self.ctx().generic_params@;
        let mut i: usize = 0;
        while i < types.len()
            invariant
                symbol_table.wf(),
                *self == *old(self),
                g == old(self).ctx().generic_params@,
                i <= types@.len(),
                types_resolve(types@.subrange(0, i as int), g, *symbol_table),
            decreases types@.len() - i,
        {
            proof {
                assert(decreases_to!(types@ => types@[i as int]));
                assert(types@.subrange(0, i + 1).subrange(0, i as int) =~= types@.subrange(0, i as int));
            }
            match self.resolve_type(&types[i], symbol_table) {
                Ok(()) => {},
                Err(e) => {
                    proof {
                        lemma_types_error_first(types@, i as int, types@.len() as int, g, *symbol_table);
                        assert(types@.subrange(0, types@.len() as int) =~= types@);
                    }
                    return Err(e);
                },
            }
            i = i + 1;
        }
        proof {
            assert(types@.subrange(0, types@.len() as int) =~= types@);
        }
        Ok(())
    }

    /// Resolve names in a type: generic parameters in scope, declared structs, interfaces and
    /// named types
    pub fn resolve_type(&mut self, type_: &Type, symbol_table: &SymbolTable) -> (res: Result<()>)
        requires
            symbol_table.wf(),
        ensures
            *final(self) == *old(self),
            res is Ok <==> type_resolves(*type_, old(self).ctx().generic_params@, *symbol_table),
            res is Err ==> unplaced_semantic_error(res->Err_0,
                type_error_message(*type_, old(self).ctx().generic_params@, *symbol_table)),
        decreases type_,
    {
        match type_ {
            Type::Generic(name) => {
                if !self.is_generic_param(name.as_str()) {
                    let is_struct = symbol_table.lookup_struct(name.as_str()).is_some();
                    let is_type = symbol_table.lookup_type(name.as_str()).is_some();
                    if !is_struct && !is_type {
                        let message = concat3("Undefined generic type parameter '", name.as_str(), "'");
                        return Err(CompilerError::semantic(0, 0, message.as_str()));
                    }
                }
                Ok(())
            },
            Type::Array(a) => self.resolve_type(&a.element_type, symbol_table),
            Type::MapOf(m) => {
                self.resolve_type(&m.key_type, symbol_table)?;
                self.resolve_type(&m.value_type, symbol_table)
            },
            Type::Tuple(t) => self.resolve_types(&t.element_types, symbol_table),
            Type::Struct(s) => {
                let exists = symbol_table.lookup_struct(s.name.as_str()).is_some()
                    || symbol_table.lookup_type(s.name.as_str()).is_some();
                if !exists {
                    let message = concat3("Undefined struct type '", s.name.as_str(), "'");
                    return Err(CompilerError::semantic(0, 0, message.as_str()));
                }
                self.resolve_types(&s.type_args, symbol_table)
            },
            Type::Interface(i) => {
                if symbol_table.lookup_interface(i.name.as_str()).is_none() {
                    let message = concat3("Undefined interface type '", i.name.as_str(), "'");
                    return Err(CompilerError::semantic(0, 0, message.as_str()));
                }
                self.resolve_types(&i.type_args, symbol_table)
            },
            Type::Function(f) => {
                self.resolve_types(&f.parameter_types, symbol_table)?;
                match &f.return_type {
                    Some(r) => self.resolve_type(r, symbol_table),
                    None => Ok(()),
                }
            },
            Type::Pointer(p) => self.resolve_type(&p.pointee_type, symbol_table),
            Type::Slice(s) => self.resolve_type(&s.element_type, symbol_table),
            Type::Channel(c) => self.resolve_type(&c.element_type, symbol_table),
            Type::Optional(o) => self.resolve_type(&o.inner_type, symbol_table),
            Type::Error(e) => self.resolve_type(&e.inner_type, symbol_table),
            Type::Union(u) => self.resolve_types(&u.member_types, symbol_table),
            Type::Alias(a) => {
                if symbol_table.lookup_type(a.name.as_str()).is_none() {
                    let message = concat3("Undefined type alias '", a.name.as_str(), "'");
                    return Err(CompilerError::semantic(0, 0, message.as_str()));
                }
                self.resolve_types(&a.type_args, symbol_table)
            },
            _ => Ok(()),
        }
    }
}

impl Default for NameResolver {
    fn default() -> (res: Self)
        ensures
            res.ctx().current_scope == 0,
            res.ctx().import_aliases@.len() == 0,
            res.ctx().generic_params@.len() == 0,
    {
        NameResolver::new()
    }
}

} // verus!
