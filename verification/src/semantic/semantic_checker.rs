//! Semantic checking for Nature language
use vstd::prelude::*;
use crate::ast::{Program, Declaration, FunctionDecl, VariableDecl, ConstantDecl, TypeDecl, StructDecl, InterfaceDecl, InterfaceMethod, ImportDecl, ImplDecl, StructField, Block, Parameter, Type};
use crate::ast::expr::{Expression, CallExpr, MethodCallExpr, BinaryExpr, UnaryExpr, FieldAccessExpr, IndexAccessExpr, CastExpr, ArrayExpr, MapExpr, MapEntry, StructExpr, FieldInit, IfExpr, MatchExpr, MatchArm, LambdaExpr};
use crate::ast::stmt::{Statement, VariableDeclStmt, ConstantDeclStmt, AssignmentStmt, AssignmentTarget, IfStmt, ForStmt, WhileStmt, MatchStmt, MatchArmStmt, ReturnStmt, BreakStmt, ContinueStmt, TryStmt, CatchHandlerStmt, ThrowStmt, BlockStmt};
use crate::error::{CompilerError, Result};
use crate::text::concat3;
use super::symbols::Symbol;
use super::symbol_table::{SymbolTable, assoc_get, lemma_assoc_push};
use super::nesting::{nesting, stmts_nesting, arms_nesting, handlers_nesting, function_nesting, functions_nesting, declaration_nesting, declarations_nesting, program_nesting, lemma_stmts_nesting, lemma_arms_nesting, lemma_handlers_nesting, lemma_functions_nesting, lemma_declarations_nesting};

verus! {

/// `name` denotes a struct or a named type in a symbol table.
pub open spec fn names_struct_or_type(st: SymbolTable, name: Seq<char>) -> bool {
    (st.spec_lookup(name) matches Some(Symbol::Struct(_))) || (st.spec_lookup(name) matches Some(Symbol::Type(_)))
}

/// What a name denotes, as far as the checks look: a struct, a named type, an interface, a
/// variable (and whether it is mutable), or another kind of symbol.
pub enum NameKind {
    Struct,
    Type,
    Interface,
    Variable { mutable: bool },
    Other,
}

/// The kind of what a name denotes, for each name; `None` where it denotes nothing.
pub type NameKinds = spec_fn(Seq<char>) -> Option<NameKind>;

/// The kind of a symbol.
pub open spec fn kind_of(s: Option<Symbol>) -> Option<NameKind> {
    match s {
        Some(Symbol::Struct(_)) => Some(NameKind::Struct),
        Some(Symbol::Type(_)) => Some(NameKind::Type),
        Some(Symbol::Interface(_)) => Some(NameKind::Interface),
        Some(Symbol::Variable(v)) => Some(NameKind::Variable { mutable: v.declaration.mutable }),
        Some(_) => Some(NameKind::Other),
        None => None,
    }
}

/// The kinds of what the names denote in a symbol table.
pub open spec fn kinds(st: SymbolTable) -> NameKinds {
    |name: Seq<char>| kind_of(st.spec_lookup(name))
}

/// `name` denotes a struct or a named type.
pub open spec fn struct_or_type(names: NameKinds, name: Seq<char>) -> bool {
    names(name) == Some(NameKind::Struct) || names(name) == Some(NameKind::Type)
}

/// Every struct, interface and alias a type mentions is declared, as what it is used as.
pub open spec fn type_known(t: Type, names: NameKinds) -> bool
    decreases t,
{
    match t {
        Type::Array(a) => type_known(*a.element_type, names),
        Type::MapOf(m) => type_known(*m.key_type, names) && type_known(*m.value_type, names),
        Type::Tuple(tt) => types_known(tt.element_types@, names),
        Type::Struct(s) => struct_or_type(names, s.name@) && types_known(s.type_args@, names),
        Type::Interface(i) => names(i.name@) == Some(NameKind::Interface) && types_known(i.type_args@, names),
        Type::Function(f) => types_known(f.parameter_types@, names) && match f.return_type {
            Some(r) => type_known(*r, names),
            None => true,
        },
        Type::Pointer(p) => type_known(*p.pointee_type, names),
        Type::Slice(s) => type_known(*s.element_type, names),
        Type::Channel(c) => type_known(*c.element_type, names),
        Type::Optional(o) => type_known(*o.inner_type, names),
        Type::Error(e) => type_known(*e.inner_type, names),
        Type::Union(u) => types_known(u.member_types@, names),
        Type::Alias(a) => names(a.name@) == Some(NameKind::Type) && types_known(a.type_args@, names),
        _ => true,
    }
}

/// Every type of a list is known.
pub open spec fn types_known(ts: Seq<Type>, names: NameKinds) -> bool
    decreases ts,
{
    if ts.len() == 0 {
        true
    } else {
        types_known(ts.subrange(0, ts.len() - 1), names) && type_known(ts[ts.len() - 1], names)
    }
}

/// The message for the first name in a type, read left to right, that is not declared with the
/// right kind.
pub open spec fn type_check_message(t: Type, names: NameKinds) -> Seq<char>
    decreases t,
{
    match t {
        Type::Array(a) => type_check_message(*a.element_type, names),
        Type::MapOf(m) => if !type_known(*m.key_type, names) {
            type_check_message(*m.key_type, names)
        } else {
            type_check_message(*m.value_type, names)
        },
        Type::Tuple(tt) => types_check_message(tt.element_types@, names),
        Type::Struct(s) => if !struct_or_type(names, s.name@) {
            "Undefined struct type '"@ + s.name@ + "'"@
        } else {
            types_check_message(s.type_args@, names)
        },
        Type::Interface(i) => if names(i.name@) != Some(NameKind::Interface) {
            "Undefined interface type '"@ + i.name@ + "'"@
        } else {
            types_check_message(i.type_args@, names)
        },
        Type::Function(f) => if !types_known(f.parameter_types@, names) {
            types_check_message(f.parameter_types@, names)
        } else {
            match f.return_type {
                Some(r) => type_check_message(*r, names),
                None => Seq::empty(),
            }
        },
        Type::Pointer(p) => type_check_message(*p.pointee_type, names),
        Type::Slice(sl) => type_check_message(*sl.element_type, names),
        Type::Channel(c) => type_check_message(*c.element_type, names),
        Type::Optional(o) => type_check_message(*o.inner_type, names),
        Type::Error(e) => type_check_message(*e.inner_type, names),
        Type::Union(u) => types_check_message(u.member_types@, names),
        Type::Alias(a) => if names(a.name@) != Some(NameKind::Type) {
            "Undefined type alias '"@ + a.name@ + "'"@
        } else {
            types_check_message(a.type_args@, names)
        },
        _ => Seq::empty(),
    }
}

/// The message for the first type of a list that is not known.
pub open spec fn types_check_message(ts: Seq<Type>, names: NameKinds) -> Seq<char>
    decreases ts,
{
    if ts.len() == 0 {
        Seq::empty()
    } else if !types_known(ts.subrange(0, ts.len() - 1), names) {
        types_check_message(ts.subrange(0, ts.len() - 1), names)
    } else {
        type_check_message(ts[ts.len() - 1], names)
    }
}

/// `e` is a semantic error at `0:0` with message `m`.
pub open spec fn unplaced_error(e: CompilerError, m: Seq<char>) -> bool {
    e matches CompilerError::Semantic { line, column, message } && line == 0 && column == 0 && message@ == m
}

/// An optional type is known when it is absent or known.
pub open spec fn opt_type_known(t: Option<Type>, names: NameKinds) -> bool {
    match t {
        Some(t) => type_known(t, names),
        None => true,
    }
}

/// An optional expression passes the checks when it is absent or passes them.
pub open spec fn opt_expr_checks(e: Option<Expression>, names: NameKinds) -> bool
    decreases e,
{
    match e {
        Some(e) => expr_checks(e, names),
        None => true,
    }
}

/// Every expression of a list passes the checks.
pub open spec fn exprs_check(es: Seq<Expression>, names: NameKinds) -> bool
    decreases es,
{
    forall|i: int| 0 <= i < es.len() ==> expr_checks(#[trigger] es[i], names)
}

/// The keys and values of map entries pass the checks.
pub open spec fn entries_check(es: Seq<MapEntry>, names: NameKinds) -> bool
    decreases es,
{
    forall|i: int| 0 <= i < es.len() ==> expr_checks(#[trigger] es[i].key, names) && expr_checks(es[i].value, names)
}

/// The values of field initializers pass the checks.
pub open spec fn inits_check(fs: Seq<FieldInit>, names: NameKinds) -> bool
    decreases fs,
{
    forall|i: int| 0 <= i < fs.len() ==> expr_checks(#[trigger] fs[i].value, names)
}

/// The guards and bodies of match arms pass the checks.
pub open spec fn expr_arms_check(arms: Seq<MatchArm>, names: NameKinds) -> bool
    decreases arms,
{
    forall|i: int| 0 <= i < arms.len() ==> opt_expr_checks(#[trigger] arms[i].guard, names) && expr_checks(arms[i].body, names)
}

/// The types and default values of parameters pass the checks.
pub open spec fn params_check(ps: Seq<Parameter>, names: NameKinds) -> bool
    decreases ps,
{
    forall|i: int| 0 <= i < ps.len() ==> type_known(#[trigger] ps[i].param_type, names) && opt_expr_checks(ps[i].default_value, names)
}

/// An expression passes the semantic checks: every type it mentions is known.
pub open spec fn expr_checks(e: Expression, names: NameKinds) -> bool
    decreases e,
{
    match e {
        Expression::Call(call) => expr_checks(*call.callee, names) && types_known(call.type_args@, names) && exprs_check(call.arguments@, names),
        Expression::MethodCall(m) => expr_checks(*m.object, names) && types_known(m.type_args@, names) && exprs_check(m.arguments@, names),
        Expression::Binary(b) => expr_checks(*b.left, names) && expr_checks(*b.right, names),
        Expression::Unary(u) => expr_checks(*u.operand, names),
        Expression::FieldAccess(f) => expr_checks(*f.object, names),
        Expression::IndexAccess(x) => expr_checks(*x.object, names) && expr_checks(*x.index, names),
        Expression::Cast(c) => expr_checks(*c.expr, names) && type_known(c.target_type, names),
        Expression::Array(arr) => exprs_check(arr.elements@, names),
        Expression::MapLiteral(m) => entries_check(m.entries@, names),
        Expression::Struct(se) => type_known(se.struct_type, names) && inits_check(se.fields@, names),
        Expression::If(i) => expr_checks(*i.condition, names) && expr_checks(*i.then_branch, names)
            && match i.else_branch {
                Some(e) => expr_checks(*e, names),
                None => true,
            },
        Expression::Match(m) => expr_checks(*m.expr, names) && expr_arms_check(m.arms@, names),
        Expression::Lambda(l) => params_check(l.parameters@, names) && opt_type_known(l.return_type, names) && expr_checks(*l.body, names),
        _ => true,
    }
}

/// An assignment target passes the checks: a variable assigned to is not declared immutable.
pub open spec fn target_checks(t: AssignmentTarget, names: NameKinds) -> bool {
    match t {
        AssignmentTarget::Variable(name) => names(name@) != Some(NameKind::Variable { mutable: false }),
        AssignmentTarget::FieldAccess(f) => expr_checks(f.object, names),
        AssignmentTarget::IndexAccess(x) => expr_checks(x.object, names) && expr_checks(x.index, names),
    }
}

/// A statement passes the semantic checks, inside a function when `f`, one with a return type
/// when `r`, inside `loops` loops and `tries` try blocks: `break` and `continue` only in a loop,
/// `return` only in a function and with a value when it has a return type, `throw` only in a
/// try block, and every type mentioned known.
pub open spec fn stmt_checks(f: bool, r: bool, loops: nat, tries: nat, s: Statement, names: NameKinds) -> bool
    decreases s,
{
    match s {
        Statement::Expression(e) => expr_checks(e, names),
        Statement::VariableDecl(v) => opt_type_known(v.var_type, names) && opt_expr_checks(v.initializer, names),
        Statement::ConstantDecl(c) => opt_type_known(c.const_type, names) && expr_checks(c.value, names),
        Statement::Assignment(a) => target_checks(a.target, names) && expr_checks(a.value, names),
        Statement::If(i) => expr_checks(i.condition, names) && stmt_checks(f, r, loops, tries, *i.then_branch, names)
            && match i.else_branch {
                Some(e) => stmt_checks(f, r, loops, tries, *e, names),
                None => true,
            },
        Statement::For(fs) => expr_checks(fs.iterable, names) && stmt_checks(f, r, loops + 1, tries, *fs.body, names),
        Statement::While(w) => expr_checks(w.condition, names) && stmt_checks(f, r, loops + 1, tries, *w.body, names),
        Statement::Match(m) => expr_checks(m.expr, names) && stmt_arms_check(f, r, loops, tries, m.arms@, names),
        Statement::Return(ret) => f && match ret.value {
            Some(v) => expr_checks(v, names),
            None => !r,
        },
        Statement::Break(_) => loops > 0,
        Statement::Continue(_) => loops > 0,
        Statement::Try(t) => stmt_checks(f, r, loops, tries + 1, *t.try_block, names)
            && handlers_check(f, r, loops, tries + 1, t.catch_handlers@, names),
        Statement::Throw(t) => tries > 0 && expr_checks(t.exception, names),
        Statement::Block(b) => stmts_check(f, r, loops, tries, b.statements@, names),
        _ => true,
    }
}

/// Every statement of a list passes the checks.
pub open spec fn stmts_check(f: bool, r: bool, loops: nat, tries: nat, ss: Seq<Statement>, names: NameKinds) -> bool
    decreases ss,
{
    forall|i: int| 0 <= i < ss.len() ==> stmt_checks(f, r, loops, tries, #[trigger] ss[i], names)
}

/// The guards and bodies of match statement arms pass the checks.
pub open spec fn stmt_arms_check(f: bool, r: bool, loops: nat, tries: nat, arms: Seq<MatchArmStmt>, names: NameKinds) -> bool
    decreases arms,
{
    forall|i: int| 0 <= i < arms.len()
        ==> opt_expr_checks(#[trigger] arms[i].guard, names) && stmt_checks(f, r, loops, tries, arms[i].body, names)
}

/// The exception types and bodies of catch handlers pass the checks.
pub open spec fn handlers_check(f: bool, r: bool, loops: nat, tries: nat, hs: Seq<CatchHandlerStmt>, names: NameKinds) -> bool
    decreases hs,
{
    forall|i: int| 0 <= i < hs.len()
        ==> type_known(#[trigger] hs[i].exception_type, names) && stmt_checks(f, r, loops, tries, hs[i].body, names)
}

/// A statement passes the checks in a checking context.
pub open spec fn stmt_ok(c: CheckingContext, s: Statement, names: NameKinds) -> bool {
    stmt_checks(c.current_function is Some, c.current_return_type is Some, c.loop_depth as nat, c.try_depth as nat, s, names)
}

/// Every statement of a list passes the checks in a checking context.
pub open spec fn stmts_ok(c: CheckingContext, ss: Seq<Statement>, names: NameKinds) -> bool {
    stmts_check(c.current_function is Some, c.current_return_type is Some, c.loop_depth as nat, c.try_depth as nat, ss, names)
}

/// Some parameter before position `i` is named `n`.
pub open spec fn named_before(ps: Seq<Parameter>, i: int, n: Seq<char>) -> bool {
    exists|j: int| 0 <= j < i && (#[trigger] ps[j]).name@ == n
}

/// The kinds inside a function whose parameters before position `i` are declared, as
/// immutable variables, in a scope of their own.
pub open spec fn with_params(names: NameKinds, ps: Seq<Parameter>, i: int) -> NameKinds {
    |n: Seq<char>| if named_before(ps, i, n) { Some(NameKind::Variable { mutable: false }) } else { names(n) }
}

/// A parameter's type and default value pass the checks.
pub open spec fn param_checks(p: Parameter, names: NameKinds) -> bool {
    type_known(p.param_type, names) && opt_expr_checks(p.default_value, names)
}

/// A function passes the checks inside `loops` loops and `tries` try blocks: each parameter
/// among those before it, whose names it does not repeat; then its body, with all of them.
pub open spec fn function_checks(loops: nat, tries: nat, func: FunctionDecl, names: NameKinds) -> bool {
    let ps = func.parameters@;
    &&& forall|i: int| 0 <= i < ps.len()
        ==> param_checks(#[trigger] ps[i], with_params(names, ps, i)) && !named_before(ps, i, ps[i].name@)
    &&& match func.body {
        Some(b) => stmts_check(true, func.return_type is Some, loops, tries, b.statements@,
            with_params(names, ps, ps.len() as int)),
        None => true,
    }
}

/// Every function of a list passes the checks.
pub open spec fn functions_check(loops: nat, tries: nat, fs: Seq<FunctionDecl>, names: NameKinds) -> bool {
    forall|i: int| 0 <= i < fs.len() ==> function_checks(loops, tries, #[trigger] fs[i], names)
}

/// The types and default values of struct fields pass the checks.
pub open spec fn fields_check(fs: Seq<StructField>, names: NameKinds) -> bool {
    forall|i: int| 0 <= i < fs.len()
        ==> type_known(#[trigger] fs[i].field_type, names) && opt_expr_checks(fs[i].default_value, names)
}

/// An interface method's parameters and return type pass the checks.
pub open spec fn method_sig_checks(m: InterfaceMethod, names: NameKinds) -> bool {
    &&& forall|i: int| 0 <= i < m.parameters@.len() ==> param_checks(#[trigger] m.parameters@[i], names)
    &&& opt_type_known(m.return_type, names)
}

/// The methods of an interface pass the checks.
pub open spec fn methods_check(ms: Seq<InterfaceMethod>, names: NameKinds) -> bool {
    forall|i: int| 0 <= i < ms.len() ==> method_sig_checks(#[trigger] ms[i], names)
}

/// A declaration passes the checks in a checking context: a variable outside a function has an
/// initializer, an implementation is for a declared struct or type, and every type, expression
/// and statement inside passes.
pub open spec fn decl_checks(c: CheckingContext, d: Declaration, names: NameKinds) -> bool {
    let loops = c.loop_depth as nat;
    let tries = c.try_depth as nat;
    match d {
        Declaration::Function(f) => function_checks(loops, tries, f, names),
        Declaration::Variable(v) => !(c.current_function is None && v.initializer is None)
            && opt_expr_checks(v.initializer, names),
        Declaration::Constant(k) => expr_checks(k.value, names),
        Declaration::Type(t) => type_known(t.type_def, names),
        Declaration::Struct(s) => fields_check(s.fields@, names) && functions_check(loops, tries, s.methods@, names),
        Declaration::Interface(i) => methods_check(i.methods@, names),
        Declaration::Import(_) => true,
        Declaration::Impl(i) => struct_or_type(names, i.self_type@) && functions_check(loops, tries, i.methods@, names),
    }
}

/// Every declaration of a program passes the checks.
pub open spec fn program_checks(c: CheckingContext, p: Program, names: NameKinds) -> bool {
    forall|i: int| 0 <= i < p.declarations@.len() ==> decl_checks(c, #[trigger] p.declarations@[i], names)
}

/// Two tables with the same scopes and globals give every name the same kind.
pub proof fn lemma_kinds_same(t1: SymbolTable, t2: SymbolTable)
    requires
        t1.scopes() == t2.scopes(),
        t1.globals() == t2.globals(),
    ensures
        kinds(t1) == kinds(t2),
{
    assert(kinds(t1) =~= kinds(t2));
}

/// A table whose innermost scope holds exactly the parameters before position `i`, as immutable
/// variables, over the scopes of `t0`, gives the kinds of `t0` with those parameters.
proof fn lemma_kinds_in_params_scope(t: SymbolTable, t0: SymbolTable, ps: Seq<Parameter>, i: int)
    requires
        t.wf(),
        t.scopes().drop_last() == t0.scopes(),
        t.globals() == t0.globals(),
        forall|n: Seq<char>| #![trigger assoc_get(t.current(), n)]
            assoc_get(t.current(), n) is Some <==> named_before(ps, i, n),
        forall|n: Seq<char>| #![trigger named_before(ps, i, n)]
            named_before(ps, i, n) ==> (assoc_get(t.current(), n) matches Some(Symbol::Variable(v)) && !v.declaration.mutable),
    ensures
        kinds(t) == with_params(kinds(t0), ps, i),
{
    assert forall|n: Seq<char>| #![trigger t.spec_lookup(n)]
        kind_of(t.spec_lookup(n)) == (if named_before(ps, i, n) { Some(NameKind::Variable { mutable: false }) }
            else { kind_of(t0.spec_lookup(n)) }) by {
        assert(t.scopes().last() == t.current());
        if named_before(ps, i, n) {
            assert(assoc_get(t.current(), n) is Some);
        } else {
            assert(assoc_get(t.current(), n) is None);
        }
    }
    assert(kinds(t) =~= with_params(kinds(t0), ps, i));
}

/// Declaring the parameter at position `i` in a scope that holds those before it makes it hold
/// those up to it.
proof fn lemma_params_scope_push(cur: Seq<(String, Symbol)>, e: (String, Symbol), ps: Seq<Parameter>, i: int)
    requires
        0 <= i < ps.len(),
        e.0@ == ps[i].name@,
        e.1 matches Symbol::Variable(v) && !v.declaration.mutable,
        assoc_get(cur, e.0@) is None,
        forall|n: Seq<char>| #![trigger assoc_get(cur, n)]
            assoc_get(cur, n) is Some <==> named_before(ps, i, n),
        forall|n: Seq<char>| #![trigger named_before(ps, i, n)]
            named_before(ps, i, n) ==> (assoc_get(cur, n) matches Some(Symbol::Variable(v)) && !v.declaration.mutable),
    ensures
        forall|n: Seq<char>| #![trigger assoc_get(cur.push(e), n)]
            assoc_get(cur.push(e), n) is Some <==> named_before(ps, i + 1, n),
        forall|n: Seq<char>| #![trigger named_before(ps, i + 1, n)]
            named_before(ps, i + 1, n) ==> (assoc_get(cur.push(e), n) matches Some(Symbol::Variable(v)) && !v.declaration.mutable),
{
    assert forall|n: Seq<char>| #![trigger named_before(ps, i + 1, n)]
        named_before(ps, i + 1, n) <==> (named_before(ps, i, n) || n == ps[i].name@) by {
        if named_before(ps, i + 1, n) && n != ps[i].name@ {
            let j = choose|j: int| 0 <= j < i + 1 && (#[trigger] ps[j]).name@ == n;
            assert(0 <= j < i && ps[j].name@ == n);
        }
        if named_before(ps, i, n) {
            let j = choose|j: int| 0 <= j < i && (#[trigger] ps[j]).name@ == n;
            assert(0 <= j < i + 1 && ps[j].name@ == n);
        }
        if n == ps[i].name@ {
            assert(0 <= i < i + 1 && ps[i].name@ == n);
        }
    }
    assert forall|n: Seq<char>| #![trigger assoc_get(cur.push(e), n)]
        assoc_get(cur.push(e), n) is Some <==> named_before(ps, i + 1, n) by {
        lemma_assoc_push(cur, e.0, e.1, n);
        assert(named_before(ps, i + 1, n) <==> (named_before(ps, i, n) || n == ps[i].name@));
    }
    assert forall|n: Seq<char>| #![trigger named_before(ps, i + 1, n)]
        named_before(ps, i + 1, n) implies (assoc_get(cur.push(e), n) matches Some(Symbol::Variable(v)) && !v.declaration.mutable) by {
        lemma_assoc_push(cur, e.0, e.1, n);
    }
}

/// A semantic error with no position.
pub open spec fn unplaced_semantic(e: CompilerError) -> bool {
    e matches CompilerError::Semantic { line, column, .. } && line == 0 && column == 0
}

/// Semantic checker for Nature language
pub struct SemanticChecker {
    /// Current checking context
    context: CheckingContext,
}

/// Checking context
#[derive(Debug)]
pub struct CheckingContext {
    /// Current function being checked
    pub current_function: Option<String>,
    /// Current struct being checked
    pub current_struct: Option<String>,
    /// Current interface being checked
    pub current_interface: Option<String>,
    /// Return type of current function
    pub current_return_type: Option<Type>,
    /// Loop depth for break/continue validation
    pub loop_depth: usize,
    /// Try block depth for throw validation
    pub try_depth: usize,
}

/// The context at the top level: outside any function, struct, interface, loop or try block.
pub open spec fn top_context() -> CheckingContext {
    CheckingContext {
        current_function: None,
        current_struct: None,
        current_interface: None,
        current_return_type: None,
        loop_depth: 0,
        try_depth: 0,
    }
}

/// The loop and try counters leave room for `n` more levels.
pub open spec fn room_for(c: CheckingContext, n: nat) -> bool {
    c.loop_depth + n <= usize::MAX && c.try_depth + n <= usize::MAX
}

impl SemanticChecker {
    /// The checking context.
    pub closed spec fn ctx(&self) -> CheckingContext {
        self.context
    }

    /// Create a new semantic checker
    pub fn new() -> (res: Self)
        ensures
            res.ctx() == top_context(),
            res.ctx().current_function is None,
            res.ctx().current_struct is None,
            res.ctx().current_interface is None,
            res.ctx().current_return_type is None,
            res.ctx().loop_depth == 0,
            res.ctx().try_depth == 0,
    {
        SemanticChecker {
            context: CheckingContext {
                current_function: None,
                current_struct: None,
                current_interface: None,
                current_return_type: None,
                loop_depth: 0,
                try_depth: 0,
            },
        }
    }

    /// The checking context
    pub fn context(&self) -> (res: &CheckingContext)
        ensures
            *res == self.ctx(),
    {
        &self.context
    }

    /// Check a program for semantic correctness
    pub fn check_program(&mut self, program: &Program, symbol_table: &mut SymbolTable) -> (res: Result<()>)
        requires
            old(symbol_table).wf(),
            room_for(old(self).ctx(), program_nesting(*program)),
        ensures
            final(symbol_table).wf(),
            res is Ok <==> program_checks(old(self).ctx(), *program, kinds(*old(symbol_table))),
            res is Ok ==> final(self).ctx() == old(self).ctx()
                && final(symbol_table).scopes() == old(symbol_table).scopes()
                && final(symbol_table).globals() == old(symbol_table).globals()
                && final(symbol_table).level() == old(symbol_table).level(),
    {
        let mut i: usize = 0;
        while i < program.declarations.len()
            invariant
                symbol_table.wf(),
                self.ctx() == old(self).ctx(),
                symbol_table.scopes() == old(symbol_table).scopes(),
                symbol_table.globals() == old(symbol_table).globals(),
                symbol_table.level() == old(symbol_table).level(),
                room_for(old(self).ctx(), program_nesting(*program)),
                forall|k: int| 0 <= k < i ==> decl_checks(old(self).ctx(), #[trigger] program.declarations@[k], kinds(*old(symbol_table))),
            decreases program.declarations@.len() - i,
        {
            proof {
                lemma_declarations_nesting(program.declarations@, i as int);
                lemma_kinds_same(*symbol_table, *old(symbol_table));
            }
            match self.check_declaration(&program.declarations[i], symbol_table) {
                Ok(()) => {},
                Err(e) => {
                    proof {
                        assert(!program_checks(old(self).ctx(), *program, kinds(*old(symbol_table))));
                    }
                    return Err(e);
                },
            }
            i = i + 1;
        }
        Ok(())
    }

    /// Check a declaration
    fn check_declaration(&mut self, declaration: &Declaration, symbol_table: &mut SymbolTable) -> (res: Result<()>)
        requires
            old(symbol_table).wf(),
            room_for(old(self).ctx(), declaration_nesting(*declaration)),
        ensures
            final(symbol_table).wf(),
            res is Ok <==> decl_checks(old(self).ctx(), *declaration, kinds(*old(symbol_table))),
            res is Ok ==> final(self).ctx() == old(self).ctx()
                && final(symbol_table).scopes() == old(symbol_table).scopes()
                && final(symbol_table).globals() == old(symbol_table).globals()
                && final(symbol_table).level() == old(symbol_table).level(),
    {
        match declaration {
            Declaration::Function(func) => self.check_function(func, symbol_table),
            Declaration::Variable(var) => self.check_variable(var, symbol_table),
            Declaration::Constant(c) => self.check_constant(c, symbol_table),
            Declaration::Type(t) => self.check_type_declaration(t, symbol_table),
            Declaration::Struct(s) => self.check_struct(s, symbol_table),
            Declaration::Interface(i) => self.check_interface(i, symbol_table),
            Declaration::Import(i) => self.check_import(i, symbol_table),
            Declaration::Impl(i) => self.check_impl(i, symbol_table),
        }
    }

    /// Check a function declaration: its parameters are variables of a scope of their own,
    /// where its body is checked
    fn check_function(&mut self, func: &FunctionDecl, symbol_table: &mut SymbolTable) -> (res: Result<()>)
        requires
            old(symbol_table).wf(),
            room_for(old(self).ctx(), function_nesting(*func)),
        ensures
            final(symbol_table).wf(),
            res is Ok <==> function_checks(old(self).ctx().loop_depth as nat, old(self).ctx().try_depth as nat, *func,
                kinds(*old(symbol_table))),
            res is Ok ==> final(self).ctx() == old(self).ctx()
                && final(symbol_table).scopes() == old(symbol_table).scopes()
                && final(symbol_table).globals() == old(symbol_table).globals()
                && final(symbol_table).level() == old(symbol_table).level(),
    {
        let mut saved_function: Option<String> = Some(func.name.clone());
        let mut saved_return_type: Option<Type> = match &func.return_type {
            Some(t) => Some(t.clone()),
            None => None,
        };
        std::mem::swap(&mut self.context.current_function, &mut saved_function);
        std::mem::swap(&mut self.context.current_return_type, &mut saved_return_type);
        let ghost inner = self.ctx();
        let ghost ps = func.parameters@;
        let ghost k0 = kinds(*old(symbol_table));
        let ghost loops = old(self).ctx().loop_depth as nat;
        let ghost tries = old(self).ctx().try_depth as nat;
        assert(inner.current_function is Some);
        assert((inner.current_return_type is Some) == (func.return_type is Some));
        symbol_table.enter_scope();
        let mut i: usize = 0;
        while i < func.parameters.len()
            invariant
                symbol_table.wf(),
                self.ctx() == inner,
                ps == func.parameters@,
                k0 == kinds(*old(symbol_table)),
                0 <= i <= ps.len(),
                symbol_table.level() == old(symbol_table).level() + 1,
                symbol_table.scopes().drop_last() == old(symbol_table).scopes(),
                symbol_table.globals() == old(symbol_table).globals(),
                forall|n: Seq<char>| #![trigger assoc_get(symbol_table.current(), n)]
                    assoc_get(symbol_table.current(), n) is Some <==> named_before(ps, i as int, n),
                forall|n: Seq<char>| #![trigger named_before(ps, i as int, n)]
                    named_before(ps, i as int, n) ==> (assoc_get(symbol_table.current(), n) matches Some(Symbol::Variable(v))
                    && !v.declaration.mutable),
                forall|k: int| 0 <= k < i ==> param_checks(#[trigger] ps[k], with_params(k0, ps, k))
                    && !named_before(ps, k, ps[k].name@),
            decreases func.parameters@.len() - i,
        {
            let param = &func.parameters[i];
            proof {
                lemma_kinds_in_params_scope(*symbol_table, *old(symbol_table), ps, i as int);
            }
            match self.check_parameter(param, symbol_table) {
                Ok(()) => {},
                Err(e) => {
                    proof {
                        assert(!function_checks(loops, tries, *func, k0));
                    }
                    return Err(e);
                },
            }
            let var_decl = VariableDecl {
                name: param.name.clone(),
                var_type: Some(param.param_type.clone()),
                initializer: None,
                mutable: false,
                location: param.location,
            };
            let ghost before = *symbol_table;
            match symbol_table.insert_variable(&var_decl) {
                Ok(()) => {},
                Err(e) => {
                    proof {
                        assert(named_before(ps, i as int, ps[i as int].name@));
                        assert(!function_checks(loops, tries, *func, k0));
                    }
                    return Err(e);
                },
            }
            proof {
                assert(symbol_table.scopes().drop_last() =~= before.scopes().drop_last());
                lemma_params_scope_push(before.current(), symbol_table.current().last(), ps, i as int);
                assert(symbol_table.current() == before.current().push(symbol_table.current().last()));
            }
            i = i + 1;
        }
        proof {
            lemma_kinds_in_params_scope(*symbol_table, *old(symbol_table), ps, ps.len() as int);
        }
        match &func.body {
            Some(body) => {
                let mut j: usize = 0;
                while j < body.statements.len()
                    invariant
                        symbol_table.wf(),
                        self.ctx() == inner,
                        inner.current_function is Some,
                        (inner.current_return_type is Some) == (func.return_type is Some),
                        inner.loop_depth == loops,
                        inner.try_depth == tries,
                        room_for(inner, stmts_nesting(body.statements@)),
                        symbol_table.level() == old(symbol_table).level() + 1,
                        symbol_table.scopes().drop_last() == old(symbol_table).scopes(),
                        symbol_table.globals() == old(symbol_table).globals(),
                        kinds(*symbol_table) == with_params(k0, ps, ps.len() as int),
                        func.body == Some(*body),
                        ps == func.parameters@,
                        k0 == kinds(*old(symbol_table)),
                        loops == old(self).ctx().loop_depth as nat,
                        tries == old(self).ctx().try_depth as nat,
                        forall|k: int| 0 <= k < j ==> stmt_ok(inner, #[trigger] body.statements@[k], kinds(*symbol_table)),
                    decreases body.statements@.len() - j,
                {
                    proof {
                        lemma_stmts_nesting(body.statements@, j as int);
                    }
                    match self.check_statement(&body.statements[j], symbol_table) {
                        Ok(()) => {},
                        Err(e) => {
                            proof {
                                assert(!stmts_check(true, func.return_type is Some, loops, tries, body.statements@,
                                    with_params(k0, ps, ps.len() as int)));
                                assert(!function_checks(loops, tries, *func, k0));
                            }
                            return Err(e);
                        },
                    }
                    j = j + 1;
                }
                proof {
                    assert(stmts_check(true, func.return_type is Some, loops, tries, body.statements@,
                        with_params(k0, ps, ps.len() as int)));
                }
            },
            None => {},
        }
        symbol_table.exit_scope();
        std::mem::swap(&mut self.context.current_function, &mut saved_function);
        std::mem::swap(&mut self.context.current_return_type, &mut saved_return_type);
        Ok(())
    }

    /// Check a variable declaration: a global variable must have an initializer
    fn check_variable(&mut self, var: &VariableDecl, symbol_table: &SymbolTable) -> (res: Result<()>)
        requires
            symbol_table.wf(),
        ensures
            *final(self) == *old(self),
            res is Ok <==> decl_checks(old(self).ctx(), Declaration::Variable(*var), kinds(*symbol_table)),
            old(self).ctx().current_function is None && var.initializer is None ==> res is Err
                && (res->Err_0 matches CompilerError::Semantic { line, column, message }
                && line == var.location.line && column == var.location.column
                && message@ == "Global variables must have initializers"@),
    {
        if self.context.current_function.is_none() && var.initializer.is_none() {
            return Err(CompilerError::semantic(var.location.line, var.location.column, "Global variables must have initializers"));
        }
        match &var.initializer {
            Some(initializer) => self.check_expression(initializer, symbol_table),
            None => Ok(()),
        }
    }

    /// Check a constant declaration
    fn check_constant(&mut self, const_: &ConstantDecl, symbol_table: &SymbolTable) -> (res: Result<()>)
        requires
            symbol_table.wf(),
        ensures
            *final(self) == *old(self),
            res is Ok <==> expr_checks(const_.value, kinds(*symbol_table)),
    {
        self.check_expression(&const_.value, symbol_table)
    }

    /// Check a type declaration
    fn check_type_declaration(&mut self, type_: &TypeDecl, symbol_table: &SymbolTable) -> (res: Result<()>)
        requires
            symbol_table.wf(),
        ensures
            *final(self) == *old(self),
            res is Ok <==> type_known(type_.type_def, kinds(*symbol_table)),
    {
        self.check_type(&type_.type_def, symbol_table)
    }

    /// Check a struct declaration: its fields, then its methods
    fn check_struct(&mut self, struct_: &StructDecl, symbol_table: &mut SymbolTable) -> (res: Result<()>)
        requires
            old(symbol_table).wf(),
            room_for(old(self).ctx(), functions_nesting(struct_.methods@)),
        ensures
            final(symbol_table).wf(),
            res is Ok <==> fields_check(struct_.fields@, kinds(*old(symbol_table)))
                && functions_check(old(self).ctx().loop_depth as nat, old(self).ctx().try_depth as nat, struct_.methods@,
                kinds(*old(symbol_table))),
            res is Ok ==> final(self).ctx() == old(self).ctx()
                && final(symbol_table).scopes() == old(symbol_table).scopes()
                && final(symbol_table).globals() == old(symbol_table).globals()
                && final(symbol_table).level() == old(symbol_table).level(),
    {
        let mut saved_struct: Option<String> = Some(struct_.name.clone());
        std::mem::swap(&mut self.context.current_struct, &mut saved_struct);
        let ghost inner = self.ctx();
        let mut i: usize = 0;
        while i < struct_.fields.len()
            invariant
                symbol_table.wf(),
                self.ctx() == inner,
                symbol_table.scopes() == old(symbol_table).scopes(),
                symbol_table.globals() == old(symbol_table).globals(),
                symbol_table.level() == old(symbol_table).level(),
                *symbol_table == *old(symbol_table),
                forall|k: int| 0 <= k < i ==> type_known(#[trigger] struct_.fields@[k].field_type, kinds(*old(symbol_table)))
                    && opt_expr_checks(struct_.fields@[k].default_value, kinds(*old(symbol_table))),
            decreases struct_.fields@.len() - i,
        {
            match self.check_struct_field(&struct_.fields[i], symbol_table) {
                Ok(()) => {},
                Err(e) => {
                    proof {
                        assert(!fields_check(struct_.fields@, kinds(*old(symbol_table))));
                    }
                    return Err(e);
                },
            }
            i = i + 1;
        }
        let mut j: usize = 0;
        while j < struct_.methods.len()
            invariant
                symbol_table.wf(),
                self.ctx() == inner,
                inner.loop_depth == old(self).ctx().loop_depth,
                inner.try_depth == old(self).ctx().try_depth,
                room_for(inner, functions_nesting(struct_.methods@)),
                symbol_table.scopes() == old(symbol_table).scopes(),
                symbol_table.globals() == old(symbol_table).globals(),
                symbol_table.level() == old(symbol_table).level(),
                fields_check(struct_.fields@, kinds(*old(symbol_table))),
                forall|k: int| 0 <= k < j ==> function_checks(inner.loop_depth as nat, inner.try_depth as nat,
                    #[trigger] struct_.methods@[k], kinds(*old(symbol_table))),
            decreases struct_.methods@.len() - j,
        {
            proof {
                lemma_functions_nesting(struct_.methods@, j as int);
                lemma_kinds_same(*symbol_table, *old(symbol_table));
            }
            match self.check_function(&struct_.methods[j], symbol_table) {
                Ok(()) => {},
                Err(e) => {
                    proof {
                        assert(!functions_check(inner.loop_depth as nat, inner.try_depth as nat, struct_.methods@,
                            kinds(*old(symbol_table))));
                    }
                    return Err(e);
                },
            }
            j = j + 1;
        }
        std::mem::swap(&mut self.context.current_struct, &mut saved_struct);
        Ok(())
    }

    /// Check an interface declaration: its methods' signatures
    fn check_interface(&mut self, interface: &InterfaceDecl, symbol_table: &SymbolTable) -> (res: Result<()>)
        requires
            symbol_table.wf(),
        ensures
            res is Ok <==> methods_check(interface.methods@, kinds(*symbol_table)),
            res is Ok ==> final(self).ctx() == old(self).ctx(),
    {
        let mut saved_interface: Option<String> = Some(interface.name.clone());
        std::mem::swap(&mut self.context.current_interface, &mut saved_interface);
        let ghost inner = self.ctx();
        let mut i: usize = 0;
        while i < interface.methods.len()
            invariant
                symbol_table.wf(),
                self.ctx() == inner,
                forall|k: int| 0 <= k < i ==> method_sig_checks(#[trigger] interface.methods@[k], kinds(*symbol_table)),
            decreases interface.methods@.len() - i,
        {
            match self.check_interface_method(&interface.methods[i], symbol_table) {
                Ok(()) => {},
                Err(e) => {
                    proof {
                        assert(!methods_check(interface.methods@, kinds(*symbol_table)));
                    }
                    return Err(e);
                },
            }
            i = i + 1;
        }
        std::mem::swap(&mut self.context.current_interface, &mut saved_interface);
        Ok(())
    }

    /// Check an import declaration: nothing to check
    fn check_import(&mut self, import: &ImportDecl, symbol_table: &SymbolTable) -> (res: Result<()>)
        ensures
            *final(self) == *old(self),
            res is Ok,
    {
        Ok(())
    }

    /// Check an implementation declaration: the type must be declared, as a struct or a type
    fn check_impl(&mut self, impl_: &ImplDecl, symbol_table: &mut SymbolTable) -> (res: Result<()>)
        requires
            old(symbol_table).wf(),
            room_for(old(self).ctx(), functions_nesting(impl_.methods@)),
        ensures
            final(symbol_table).wf(),
            !names_struct_or_type(*old(symbol_table), impl_.self_type@) ==> res is Err
                && (res->Err_0 matches CompilerError::Semantic { line, column, message }
                && line == impl_.location.line && column == impl_.location.column
                && message@ == "Cannot implement methods for undefined type '"@ + impl_.self_type@ + "'"@),
            res is Ok <==> struct_or_type(kinds(*old(symbol_table)), impl_.self_type@)
                && functions_check(old(self).ctx().loop_depth as nat, old(self).ctx().try_depth as nat, impl_.methods@,
                kinds(*old(symbol_table))),
            res is Ok ==> final(self).ctx() == old(self).ctx()
                && final(symbol_table).scopes() == old(symbol_table).scopes()
                && final(symbol_table).globals() == old(symbol_table).globals()
                && final(symbol_table).level() == old(symbol_table).level(),
    {
        let type_exists = symbol_table.lookup_struct(impl_.self_type.as_str()).is_some()
            || symbol_table.lookup_type(impl_.self_type.as_str()).is_some();
        if !type_exists {
            let message = concat3("Cannot implement methods for undefined type '", impl_.self_type.as_str(), "'");
            return Err(CompilerError::semantic(impl_.location.line, impl_.location.column, message.as_str()));
        }
        let mut j: usize = 0;
        while j < impl_.methods.len()
            invariant
                symbol_table.wf(),
                self.ctx() == old(self).ctx(),
                room_for(old(self).ctx(), functions_nesting(impl_.methods@)),
                names_struct_or_type(*old(symbol_table), impl_.self_type@),
                symbol_table.scopes() == old(symbol_table).scopes(),
                symbol_table.globals() == old(symbol_table).globals(),
                symbol_table.level() == old(symbol_table).level(),
                forall|k: int| 0 <= k < j ==> function_checks(old(self).ctx().loop_depth as nat, old(self).ctx().try_depth as nat,
                    #[trigger] impl_.methods@[k], kinds(*old(symbol_table))),
            decreases impl_.methods@.len() - j,
        {
            proof {
                lemma_functions_nesting(impl_.methods@, j as int);
                lemma_kinds_same(*symbol_table, *old(symbol_table));
            }
            match self.check_function(&impl_.methods[j], symbol_table) {
                Ok(()) => {},
                Err(e) => {
                    proof {
                        assert(!functions_check(old(self).ctx().loop_depth as nat, old(self).ctx().try_depth as nat,
                            impl_.methods@, kinds(*old(symbol_table))));
                    }
                    return Err(e);
                },
            }
            j = j + 1;
        }
        Ok(())
    }

    /// Check a parameter: its type, and its default value if any
    fn check_parameter(&mut self, param: &Parameter, symbol_table: &SymbolTable) -> (res: Result<()>)
        requires
            symbol_table.wf(),
        ensures
            *final(self) == *old(self),
            res is Ok <==> param_checks(*param, kinds(*symbol_table)),
    {
        self.check_type(&param.param_type, symbol_table)?;
        match &param.default_value {
            Some(default_value) => self.check_expression(default_value, symbol_table),
            None => Ok(()),
        }
    }

    /// Check a struct field: its type, and its default value if any
    fn check_struct_field(&mut self, field: &StructField, symbol_table: &SymbolTable) -> (res: Result<()>)
        requires
            symbol_table.wf(),
        ensures
            *final(self) == *old(self),
            res is Ok <==> type_known(field.field_type, kinds(*symbol_table)) && opt_expr_checks(field.default_value, kinds(*symbol_table)),
    {
        self.check_type(&field.field_type, symbol_table)?;
        match &field.default_value {
            Some(default_value) => self.check_expression(default_value, symbol_table),
            None => Ok(()),
        }
    }

    /// Check an interface method: its parameters and return type
    fn check_interface_method(&mut self, method: &InterfaceMethod, symbol_table: &SymbolTable) -> (res: Result<()>)
        requires
            symbol_table.wf(),
        ensures
            *final(self) == *old(self),
            res is Ok <==> method_sig_checks(*method, kinds(*symbol_table)),
    {
        let mut i: usize = 0;
        while i < method.parameters.len()
            invariant
                symbol_table.wf(),
                *self == *old(self),
                forall|k: int| 0 <= k < i ==> param_checks(#[trigger] method.parameters@[k], kinds(*symbol_table)),
            decreases method.parameters@.len() - i,
        {
            match self.check_parameter(&method.parameters[i], symbol_table) {
                Ok(()) => {},
                Err(e) => {
                    proof {
                        assert(!method_sig_checks(*method, kinds(*symbol_table)));
                    }
                    return Err(e);
                },
            }
            i = i + 1;
        }
        match &method.return_type {
            Some(t) => self.check_type(t, symbol_table),
            None => Ok(()),
        }
    }

    /// Check a block
    fn check_block(&mut self, block: &Block, symbol_table: &SymbolTable) -> (res: Result<()>)
        requires
            symbol_table.wf(),
            room_for(old(self).ctx(), stmts_nesting(block.statements@)),
        ensures
            res is Ok ==> final(self).ctx() == old(self).ctx(),
            res is Ok <==> stmts_ok(old(self).ctx(), block.statements@, kinds(*symbol_table)),
    {
        let mut i: usize = 0;
        while i < block.statements.len()
            invariant
                symbol_table.wf(),
                self.ctx() == old(self).ctx(),
                room_for(old(self).ctx(), stmts_nesting(block.statements@)),
                forall|k: int| 0 <= k < i ==> stmt_ok(old(self).ctx(), #[trigger] block.statements@[k], kinds(*symbol_table)),
            decreases block.statements@.len() - i,
        {
            proof {
                lemma_stmts_nesting(block.statements@, i as int);
            }
            match self.check_statement(&block.statements[i], symbol_table) {
                Ok(()) => {},
                Err(e) => {
                    proof {
                        assert(!stmts_ok(old(self).ctx(), block.statements@, kinds(*symbol_table)));
                    }
                    return Err(e);
                },
            }
            i = i + 1;
        }
        Ok(())
    }

    /// Check a statement; a statement that passes leaves the checking context as it was
    pub fn check_statement(&mut self, statement: &Statement, symbol_table: &SymbolTable) -> (res: Result<()>)
        requires
            symbol_table.wf(),
            room_for(old(self).ctx(), nesting(*statement)),
        ensures
            res is Ok ==> final(self).ctx() == old(self).ctx(),
            res is Ok <==> stmt_ok(old(self).ctx(), *statement, kinds(*symbol_table)),
        decreases statement,
    {
        match statement {
            Statement::Expression(expr) => self.check_expression(expr, symbol_table),
            Statement::VariableDecl(var) => self.check_variable_declaration(var, symbol_table),
            Statement::ConstantDecl(c) => self.check_constant_declaration(c, symbol_table),
            Statement::Assignment(assign) => self.check_assignment(assign, symbol_table),
            Statement::If(i) => self.check_if_statement(i, symbol_table),
            Statement::For(f) => self.check_for_statement(f, symbol_table),
            Statement::While(w) => self.check_while_statement(w, symbol_table),
            Statement::Match(m) => self.check_match_statement(m, symbol_table),
            Statement::Return(r) => self.check_return_statement(r, symbol_table),
            Statement::Break(b) => self.check_break_statement(b, symbol_table),
            Statement::Continue(c) => self.check_continue_statement(c, symbol_table),
            Statement::Try(t) => self.check_try_statement(t, symbol_table),
            Statement::Throw(t) => self.check_throw_statement(t, symbol_table),
            Statement::Block(b) => self.check_block_statement(b, symbol_table),
            _ => Ok(()),
        }
    }

    /// Check a variable declaration statement
    fn check_variable_declaration(&mut self, var: &VariableDeclStmt, symbol_table: &SymbolTable) -> (res: Result<()>)
        requires
            symbol_table.wf(),
        ensures
            *final(self) == *old(self),
            res is Ok <==> stmt_ok(old(self).ctx(), Statement::VariableDecl(*var), kinds(*symbol_table)),
    {
        match &var.var_type {
            Some(t) => {
                self.check_type(t, symbol_table)?;
            },
            None => {},
        }
        match &var.initializer {
            Some(initializer) => self.check_expression(initializer, symbol_table),
            None => Ok(()),
        }
    }

    /// Check a constant declaration statement
    fn check_constant_declaration(&mut self, const_: &ConstantDeclStmt, symbol_table: &SymbolTable) -> (res: Result<()>)
        requires
            symbol_table.wf(),
        ensures
            *final(self) == *old(self),
            res is Ok <==> stmt_ok(old(self).ctx(), Statement::ConstantDecl(*const_), kinds(*symbol_table)),
    {
        match &const_.const_type {
            Some(t) => {
                self.check_type(t, symbol_table)?;
            },
            None => {},
        }
        self.check_expression(&const_.value, symbol_table)
    }

    /// Check an assignment statement
    fn check_assignment(&mut self, assign: &AssignmentStmt, symbol_table: &SymbolTable) -> (res: Result<()>)
        requires
            symbol_table.wf(),
        ensures
            *final(self) == *old(self),
            res is Ok <==> stmt_ok(old(self).ctx(), Statement::Assignment(*assign), kinds(*symbol_table)),
    {
        self.check_assignment_target(&assign.target, symbol_table)?;
        self.check_expression(&assign.value, symbol_table)
    }

    /// Check an assignment target: a variable assigned to must not be immutable
    pub fn check_assignment_target(&mut self, target: &AssignmentTarget, symbol_table: &SymbolTable) -> (res: Result<()>)
        requires
            symbol_table.wf(),
        ensures
            *final(self) == *old(self),
            res is Ok <==> target_checks(*target, kinds(*symbol_table)),
            target matches AssignmentTarget::Variable(name) ==> (res is Err <==>
                (symbol_table.spec_lookup(name@) matches Some(Symbol::Variable(v)) && !v.declaration.mutable)),
            target matches AssignmentTarget::Variable(name) ==> (res is Err ==> unplaced_semantic(res->Err_0)
                && (res->Err_0 matches CompilerError::Semantic { message, .. }
                && message@ == "Cannot assign to immutable variable '"@ + name@ + "'"@)),
    {
        match target {
            AssignmentTarget::Variable(name) => {
                match symbol_table.lookup_variable(name.as_str()) {
                    Some(var_symbol) => {
                        if !var_symbol.declaration.mutable {
                            let message = concat3("Cannot assign to immutable variable '", name.as_str(), "'");
                            return Err(CompilerError::semantic(0, 0, message.as_str()));
                        }
                    },
                    None => {},
                }
                Ok(())
            },
            AssignmentTarget::FieldAccess(field_access) => self.check_expression(&field_access.object, symbol_table),
            AssignmentTarget::IndexAccess(index_access) => {
                self.check_expression(&index_access.object, symbol_table)?;
                self.check_expression(&index_access.index, symbol_table)
            },
        }
    }

    /// Check an if statement
    fn check_if_statement(&mut self, if_stmt: &IfStmt, symbol_table: &SymbolTable) -> (res: Result<()>)
        requires
            symbol_table.wf(),
            room_for(old(self).ctx(), nesting(Statement::If(*if_stmt))),
        ensures
            res is Ok ==> final(self).ctx() == old(self).ctx(),
            res is Ok <==> stmt_ok(old(self).ctx(), Statement::If(*if_stmt), kinds(*symbol_table)),
        decreases if_stmt,
    {
        self.check_expression(&if_stmt.condition, symbol_table)?;
        self.check_statement(&if_stmt.then_branch, symbol_table)?;
        match &if_stmt.else_branch {
            Some(else_branch) => self.check_statement(else_branch, symbol_table),
            None => Ok(()),
        }
    }

    /// Check a for statement, one loop deeper
    fn check_for_statement(&mut self, for_stmt: &ForStmt, symbol_table: &SymbolTable) -> (res: Result<()>)
        requires
            symbol_table.wf(),
            room_for(old(self).ctx(), nesting(Statement::For(*for_stmt))),
        ensures
            res is Ok ==> final(self).ctx() == old(self).ctx(),
            res is Ok <==> stmt_ok(old(self).ctx(), Statement::For(*for_stmt), kinds(*symbol_table)),
        decreases for_stmt,
    {
        self.context.loop_depth = self.context.loop_depth + 1;
        self.check_expression(&for_stmt.iterable, symbol_table)?;
        self.check_statement(&for_stmt.body, symbol_table)?;
        self.context.loop_depth = self.context.loop_depth - 1;
        Ok(())
    }

    /// Check a while statement, one loop deeper
    fn check_while_statement(&mut self, while_stmt: &WhileStmt, symbol_table: &SymbolTable) -> (res: Result<()>)
        requires
            symbol_table.wf(),
            room_for(old(self).ctx(), nesting(Statement::While(*while_stmt))),
        ensures
            res is Ok ==> final(self).ctx() == old(self).ctx(),
            res is Ok <==> stmt_ok(old(self).ctx(), Statement::While(*while_stmt), kinds(*symbol_table)),
        decreases while_stmt,
    {
        self.context.loop_depth = self.context.loop_depth + 1;
        self.check_expression(&while_stmt.condition, symbol_table)?;
        self.check_statement(&while_stmt.body, symbol_table)?;
        self.context.loop_depth = self.context.loop_depth - 1;
        Ok(())
    }

    /// Check a match statement
    fn check_match_statement(&mut self, match_stmt: &MatchStmt, symbol_table: &SymbolTable) -> (res: Result<()>)
        requires
            symbol_table.wf(),
            room_for(old(self).ctx(), nesting(Statement::Match(*match_stmt))),
        ensures
            res is Ok ==> final(self).ctx() == old(self).ctx(),
            res is Ok <==> stmt_ok(old(self).ctx(), Statement::Match(*match_stmt), kinds(*symbol_table)),
        decreases match_stmt,
    {
        self.check_expression(&match_stmt.expr, symbol_table)?;
        let mut i: usize = 0;
        while i < match_stmt.arms.len()
            invariant
                symbol_table.wf(),
                self.ctx() == old(self).ctx(),
                room_for(old(self).ctx(), arms_nesting(match_stmt.arms@)),
                forall|k: int| 0 <= k < i ==> opt_expr_checks(#[trigger] match_stmt.arms@[k].guard, kinds(*symbol_table))
                    && stmt_ok(old(self).ctx(), match_stmt.arms@[k].body, kinds(*symbol_table)),
            decreases match_stmt.arms@.len() - i,
        {
            let arm = &match_stmt.arms[i];
            proof {
                lemma_arms_nesting(match_stmt.arms@, i as int);
                assert(decreases_to!(match_stmt => match_stmt.arms@[i as int].body));
            }
            let r1 = match &arm.guard {
                Some(guard) => self.check_expression(guard, symbol_table),
                None => Ok(()),
            };
            let r2 = if r1.is_ok() { self.check_statement(&arm.body, symbol_table) } else { r1 };
            match r2 {
                Ok(()) => {},
                Err(e) => {
                    proof {
                        let c = old(self).ctx();
                        assert(!stmt_arms_check(c.current_function is Some, c.current_return_type is Some,
                            c.loop_depth as nat, c.try_depth as nat, match_stmt.arms@, kinds(*symbol_table)));
                        assert(!stmt_ok(c, Statement::Match(*match_stmt), kinds(*symbol_table)));
                    }
                    return Err(e);
                },
            }
            i = i + 1;
        }
        proof {
            let c = old(self).ctx();
            assert(stmt_arms_check(c.current_function is Some, c.current_return_type is Some,
                c.loop_depth as nat, c.try_depth as nat, match_stmt.arms@, kinds(*symbol_table)));
            assert(stmt_ok(c, Statement::Match(*match_stmt), kinds(*symbol_table)));
        }
        Ok(())
    }

    /// Check a return statement: only inside a function, and with a value when the function
    /// has a return type
    pub fn check_return_statement(&mut self, return_stmt: &ReturnStmt, symbol_table: &SymbolTable) -> (res: Result<()>)
        requires
            symbol_table.wf(),
        ensures
            *final(self) == *old(self),
            res is Ok <==> stmt_ok(old(self).ctx(), Statement::Return(*return_stmt), kinds(*symbol_table)),
            old(self).ctx().current_function is None ==> res is Err
                && (res->Err_0 matches CompilerError::Semantic { line, column, message }
                && line == return_stmt.location.line && column == return_stmt.location.column
                && message@ == "Return statement outside of function"@),
            old(self).ctx().current_function is Some && return_stmt.value is None ==> (res is Err
                <==> old(self).ctx().current_return_type is Some),
            old(self).ctx().current_function is Some && return_stmt.value is None && res is Err
                ==> (res->Err_0 matches CompilerError::Semantic { line, column, message }
                && line == return_stmt.location.line && column == return_stmt.location.column
                && message@ == "Function expects return value"@),
    {
        if self.context.current_function.is_none() {
            return Err(CompilerError::semantic(return_stmt.location.line, return_stmt.location.column, "Return statement outside of function"));
        }
        match &return_stmt.value {
            Some(value) => self.check_expression(value, symbol_table),
            None => {
                if self.context.current_return_type.is_some() {
                    Err(CompilerError::semantic(return_stmt.location.line, return_stmt.location.column, "Function expects return value"))
                } else {
                    Ok(())
                }
            },
        }
    }

    /// Check a break statement: only inside a loop
    pub fn check_break_statement(&mut self, break_stmt: &BreakStmt, symbol_table: &SymbolTable) -> (res: Result<()>)
        ensures
            *final(self) == *old(self),
            res is Err <==> old(self).ctx().loop_depth == 0,
            res is Err ==> (res->Err_0 matches CompilerError::Semantic { line, column, message }
                && line == break_stmt.location.line && column == break_stmt.location.column
                && message@ == "Break statement outside of loop"@),
    {
        if self.context.loop_depth == 0 {
            return Err(CompilerError::semantic(break_stmt.location.line, break_stmt.location.column, "Break statement outside of loop"));
        }
        Ok(())
    }

    /// Check a continue statement: only inside a loop
    pub fn check_continue_statement(&mut self, continue_stmt: &ContinueStmt, symbol_table: &SymbolTable) -> (res: Result<()>)
        ensures
            *final(self) == *old(self),
            res is Err <==> old(self).ctx().loop_depth == 0,
            res is Err ==> (res->Err_0 matches CompilerError::Semantic { line, column, message }
                && line == continue_stmt.location.line && column == continue_stmt.location.column
                && message@ == "Continue statement outside of loop"@),
    {
        if self.context.loop_depth == 0 {
            return Err(CompilerError::semantic(continue_stmt.location.line, continue_stmt.location.column, "Continue statement outside of loop"));
        }
        Ok(())
    }

    /// Check a try statement, one try block deeper
    fn check_try_statement(&mut self, try_stmt: &TryStmt, symbol_table: &SymbolTable) -> (res: Result<()>)
        requires
            symbol_table.wf(),
            room_for(old(self).ctx(), nesting(Statement::Try(*try_stmt))),
        ensures
            res is Ok ==> final(self).ctx() == old(self).ctx(),
            res is Ok <==> stmt_ok(old(self).ctx(), Statement::Try(*try_stmt), kinds(*symbol_table)),
        decreases try_stmt,
    {
        self.context.try_depth = self.context.try_depth + 1;
        let ghost inner = self.ctx();
        match self.check_statement(&try_stmt.try_block, symbol_table) {
            Ok(()) => {},
            Err(e) => {
                proof {
                    assert(!stmt_ok(old(self).ctx(), Statement::Try(*try_stmt), kinds(*symbol_table)));
                }
                return Err(e);
            },
        }
        let mut i: usize = 0;
        while i < try_stmt.catch_handlers.len()
            invariant
                symbol_table.wf(),
                self.ctx() == inner,
                inner.try_depth == old(self).ctx().try_depth + 1,
                inner.loop_depth == old(self).ctx().loop_depth,
                inner.current_function == old(self).ctx().current_function,
                inner.current_return_type == old(self).ctx().current_return_type,
                room_for(inner, handlers_nesting(try_stmt.catch_handlers@)),
                forall|k: int| 0 <= k < i ==> type_known(#[trigger] try_stmt.catch_handlers@[k].exception_type, kinds(*symbol_table))
                    && stmt_ok(inner, try_stmt.catch_handlers@[k].body, kinds(*symbol_table)),
            decreases try_stmt.catch_handlers@.len() - i,
        {
            let handler = &try_stmt.catch_handlers[i];
            proof {
                lemma_handlers_nesting(try_stmt.catch_handlers@, i as int);
                assert(decreases_to!(try_stmt => try_stmt.catch_handlers@[i as int].body));
            }
            let r1 = self.check_type(&handler.exception_type, symbol_table);
            let r2 = if r1.is_ok() { self.check_statement(&handler.body, symbol_table) } else { r1 };
            match r2 {
                Ok(()) => {},
                Err(e) => {
                    proof {
                        assert(!handlers_check(inner.current_function is Some, inner.current_return_type is Some,
                            inner.loop_depth as nat, inner.try_depth as nat, try_stmt.catch_handlers@, kinds(*symbol_table)));
                        assert(!stmt_ok(old(self).ctx(), Statement::Try(*try_stmt), kinds(*symbol_table)));
                    }
                    return Err(e);
                },
            }
            i = i + 1;
        }
        self.context.try_depth = self.context.try_depth - 1;
        proof {
            assert(handlers_check(inner.current_function is Some, inner.current_return_type is Some,
                inner.loop_depth as nat, inner.try_depth as nat, try_stmt.catch_handlers@, kinds(*symbol_table)));
        }
        Ok(())
    }

    /// Check a throw statement: only inside a try block
    pub fn check_throw_statement(&mut self, throw_stmt: &ThrowStmt, symbol_table: &SymbolTable) -> (res: Result<()>)
        requires
            symbol_table.wf(),
        ensures
            *final(self) == *old(self),
            res is Ok <==> stmt_ok(old(self).ctx(), Statement::Throw(*throw_stmt), kinds(*symbol_table)),
            old(self).ctx().try_depth == 0 ==> res is Err
                && (res->Err_0 matches CompilerError::Semantic { line, column, message }
                && line == throw_stmt.location.line && column == throw_stmt.location.column
                && message@ == "Throw statement outside of try block"@),
    {
        if self.context.try_depth == 0 {
            return Err(CompilerError::semantic(throw_stmt.location.line, throw_stmt.location.column, "Throw statement outside of try block"));
        }
        self.check_expression(&throw_stmt.exception, symbol_table)
    }

    /// Check a block statement
    fn check_block_statement(&mut self, block: &BlockStmt, symbol_table: &SymbolTable) -> (res: Result<()>)
        requires
            symbol_table.wf(),
            room_for(old(self).ctx(), nesting(Statement::Block(*block))),
        ensures
            res is Ok ==> final(self).ctx() == old(self).ctx(),
            res is Ok <==> stmt_ok(old(self).ctx(), Statement::Block(*block), kinds(*symbol_table)),
        decreases block,
    {
        let mut i: usize = 0;
        while i < block.statements.len()
            invariant
                symbol_table.wf(),
                self.ctx() == old(self).ctx(),
                room_for(old(self).ctx(), stmts_nesting(block.statements@)),
                forall|k: int| 0 <= k < i ==> stmt_ok(old(self).ctx(), #[trigger] block.statements@[k], kinds(*symbol_table)),
            decreases block.statements@.len() - i,
        {
            proof {
                lemma_stmts_nesting(block.statements@, i as int);
                assert(decreases_to!(block => block.statements@[i as int]));
            }
            match self.check_statement(&block.statements[i], symbol_table) {
                Ok(()) => {},
                Err(e) => {
                    proof {
                        assert(!stmts_ok(old(self).ctx(), block.statements@, kinds(*symbol_table)));
                        assert(!stmt_ok(old(self).ctx(), Statement::Block(*block), kinds(*symbol_table)));
                    }
                    return Err(e);
                },
            }
            i = i + 1;
        }
        proof {
            assert(stmts_ok(old(self).ctx(), block.statements@, kinds(*symbol_table)));
            assert(stmt_ok(old(self).ctx(), Statement::Block(*block), kinds(*symbol_table)));
        }
        Ok(())
    }

    /// Check the expressions of a list
    fn check_expressions(&mut self, exprs: &Vec<Expression>, symbol_table: &SymbolTable) -> (res: Result<()>)
        requires
            symbol_table.wf(),
        ensures
            *final(self) == *old(self),
            res is Ok <==> exprs_check(exprs@, kinds(*symbol_table)),
        decreases exprs@,
    {
        let mut i: usize = 0;
        while i < exprs.len()
            invariant
                symbol_table.wf(),
                *self == *old(self),
                forall|k: int| 0 <= k < i ==> expr_checks(#[trigger] exprs@[k], kinds(*symbol_table)),
            decreases exprs@.len() - i,
        {
            proof {
                assert(decreases_to!(exprs@ => exprs@[i as int]));
            }
            self.check_expression(&exprs[i], symbol_table)?;
            i = i + 1;
        }
        Ok(())
    }

    /// Check the types of a list
    fn check_types(&mut self, types: &Vec<Type>, symbol_table: &SymbolTable) -> (res: Result<()>)
        requires
            symbol_table.wf(),
        ensures
            *final(self) == *old(self),
            res is Ok <==> types_known(types@, kinds(*symbol_table)),
            res is Err ==> unplaced_error(res->Err_0, types_check_message(types@, kinds(*symbol_table))),
        decreases types@,
    {
        let mut i: usize = 0;
        while i < types.len()
            invariant
                symbol_table.wf(),
                *self == *old(self),
                i <= types@.len(),
                types_known(types@.subrange(0, i as int), kinds(*symbol_table)),
            decreases types@.len() - i,
        {
            proof {
                assert(decreases_to!(types@ => types@[i as int]));
                assert(types@.subrange(0, i + 1).subrange(0, i as int) =~= types@.subrange(0, i as int));
            }
            match self.check_type(&types[i], symbol_table) {
                Ok(()) => {},
                Err(e) => {
                    proof {
                        lemma_types_check_first(types@, i as int, types@.len() as int, kinds(*symbol_table));
                        assert(types@.subrange(0, types@.len() as int) =~= types@);
                    }
                    return Err(e);
                },
            }
            i = i + 1;
        }
        proof {
            assert(types@.subrange(0, types@.len() as int) =~= types@);
        }
        Ok(())
    }

    /// Check an expression; checking an expression never changes the checker
    fn check_expression(&mut self, expr: &Expression, symbol_table: &SymbolTable) -> (res: Result<()>)
        requires
            symbol_table.wf(),
        ensures
            *final(self) == *old(self),
            res is Ok <==> expr_checks(*expr, kinds(*symbol_table)),
        decreases expr,
    {
        match expr {
            Expression::Call(call) => self.check_call_expression(call, symbol_table),
            Expression::MethodCall(method_call) => self.check_method_call_expression(method_call, symbol_table),
            Expression::Binary(binary) => self.check_binary_expression(binary, symbol_table),
            Expression::Unary(unary) => self.check_unary_expression(unary, symbol_table),
            Expression::FieldAccess(field_access) => self.check_field_access_expression(field_access, symbol_table),
            Expression::IndexAccess(index_access) => self.check_index_access_expression(index_access, symbol_table),
            Expression::Cast(cast) => self.check_cast_expression(cast, symbol_table),
            Expression::Array(array) => self.check_array_expression(array, symbol_table),
            Expression::MapLiteral(map) => self.check_map_expression(map, symbol_table),
            Expression::Struct(struct_expr) => self.check_struct_expression(struct_expr, symbol_table),
            Expression::If(if_expr) => self.check_if_expression(if_expr, symbol_table),
            Expression::Match(match_expr) => self.check_match_expression(match_expr, symbol_table),
            Expression::Lambda(lambda) => self.check_lambda_expression(lambda, symbol_table),
            _ => Ok(()),
        }
    }

    /// Check a call expression
    fn check_call_expression(&mut self, call: &CallExpr, symbol_table: &SymbolTable) -> (res: Result<()>)
        requires
            symbol_table.wf(),
        ensures
            *final(self) == *old(self),
            res is Ok <==> expr_checks(Expression::Call(*call), kinds(*symbol_table)),
        decreases call,
    {
        self.check_expression(&call.callee, symbol_table)?;
        self.check_types(&call.type_args, symbol_table)?;
        self.check_expressions(&call.arguments, symbol_table)
    }

    /// Check a method call expression
    fn check_method_call_expression(&mut self, method_call: &MethodCallExpr, symbol_table: &SymbolTable) -> (res: Result<()>)
        requires
            symbol_table.wf(),
        ensures
            *final(self) == *old(self),
            res is Ok <==> expr_checks(Expression::MethodCall(*method_call), kinds(*symbol_table)),
        decreases method_call,
    {
        self.check_expression(&method_call.object, symbol_table)?;
        self.check_types(&method_call.type_args, symbol_table)?;
        self.check_expressions(&method_call.arguments, symbol_table)
    }

    /// Check a binary expression
    fn check_binary_expression(&mut self, binary: &BinaryExpr, symbol_table: &SymbolTable) -> (res: Result<()>)
        requires
            symbol_table.wf(),
        ensures
            *final(self) == *old(self),
            res is Ok <==> expr_checks(Expression::Binary(*binary), kinds(*symbol_table)),
        decreases binary,
    {
        self.check_expression(&binary.left, symbol_table)?;
        self.check_expression(&binary.right, symbol_table)
    }

    /// Check a unary expression
    fn check_unary_expression(&mut self, unary: &UnaryExpr, symbol_table: &SymbolTable) -> (res: Result<()>)
        requires
            symbol_table.wf(),
        ensures
            *final(self) == *old(self),
            res is Ok <==> expr_checks(Expression::Unary(*unary), kinds(*symbol_table)),
        decreases unary,
    {
        self.check_expression(&unary.operand, symbol_table)
    }

    /// Check a field access expression
    fn check_field_access_expression(&mut self, field_access: &FieldAccessExpr, symbol_table: &SymbolTable) -> (res: Result<()>)
        requires
            symbol_table.wf(),
        ensures
            *final(self) == *old(self),
            res is Ok <==> expr_checks(Expression::FieldAccess(*field_access), kinds(*symbol_table)),
        decreases field_access,
    {
        self.check_expression(&field_access.object, symbol_table)
    }

    /// Check an index access expression
    fn check_index_access_expression(&mut self, index_access: &IndexAccessExpr, symbol_table: &SymbolTable) -> (res: Result<()>)
        requires
            symbol_table.wf(),
        ensures
            *final(self) == *old(self),
            res is Ok <==> expr_checks(Expression::IndexAccess(*index_access), kinds(*symbol_table)),
        decreases index_access,
    {
        self.check_expression(&index_access.object, symbol_table)?;
        self.check_expression(&index_access.index, symbol_table)
    }

    /// Check a cast expression
    fn check_cast_expression(&mut self, cast: &CastExpr, symbol_table: &SymbolTable) -> (res: Result<()>)
        requires
            symbol_table.wf(),
        ensures
            *final(self) == *old(self),
            res is Ok <==> expr_checks(Expression::Cast(*cast), kinds(*symbol_table)),
        decreases cast,
    {
        self.check_expression(&cast.expr, symbol_table)?;
        self.check_type(&cast.target_type, symbol_table)
    }

    /// Check an array expression
    fn check_array_expression(&mut self, array: &ArrayExpr, symbol_table: &SymbolTable) -> (res: Result<()>)
        requires
            symbol_table.wf(),
        ensures
            *final(self) == *old(self),
            res is Ok <==> expr_checks(Expression::Array(*array), kinds(*symbol_table)),
        decreases array,
    {
        self.check_expressions(&array.elements, symbol_table)
    }

    /// Check a map expression
    fn check_map_expression(&mut self, map: &MapExpr, symbol_table: &SymbolTable) -> (res: Result<()>)
        requires
            symbol_table.wf(),
        ensures
            *final(self) == *old(self),
            res is Ok <==> expr_checks(Expression::MapLiteral(*map), kinds(*symbol_table)),
        decreases map,
    {
        let mut i: usize = 0;
        while i < map.entries.len()
            invariant
                symbol_table.wf(),
                *self == *old(self),
                forall|k: int| 0 <= k < i ==> expr_checks(#[trigger] map.entries@[k].key, kinds(*symbol_table)) && expr_checks(map.entries@[k].value, kinds(*symbol_table)),
            decreases map.entries@.len() - i,
        {
            proof {
                assert(decreases_to!(map => map.entries@[i as int].key));
                assert(decreases_to!(map => map.entries@[i as int].value));
            }
            let r1 = self.check_expression(&map.entries[i].key, symbol_table);
            let r2 = if r1.is_ok() { self.check_expression(&map.entries[i].value, symbol_table) } else { r1 };
            match r2 {
                Ok(()) => {},
                Err(e) => {
                    proof {
                        assert(!entries_check(map.entries@, kinds(*symbol_table)));
                    }
                    return Err(e);
                },
            }
            i = i + 1;
        }
        proof {
            assert(entries_check(map.entries@, kinds(*symbol_table)));
        }
        Ok(())
    }

    /// Check a struct expression
    fn check_struct_expression(&mut self, struct_expr: &StructExpr, symbol_table: &SymbolTable) -> (res: Result<()>)
        requires
            symbol_table.wf(),
        ensures
            *final(self) == *old(self),
            res is Ok <==> expr_checks(Expression::Struct(*struct_expr), kinds(*symbol_table)),
        decreases struct_expr,
    {
        self.check_type(&struct_expr.struct_type, symbol_table)?;
        let mut i: usize = 0;
        while i < struct_expr.fields.len()
            invariant
                symbol_table.wf(),
                *self == *old(self),
                forall|k: int| 0 <= k < i ==> expr_checks(#[trigger] struct_expr.fields@[k].value, kinds(*symbol_table)),
            decreases struct_expr.fields@.len() - i,
        {
            proof {
                assert(decreases_to!(struct_expr => struct_expr.fields@[i as int].value));
            }
            match self.check_expression(&struct_expr.fields[i].value, symbol_table) {
                Ok(()) => {},
                Err(e) => {
                    proof {
                        assert(!inits_check(struct_expr.fields@, kinds(*symbol_table)));
                    }
                    return Err(e);
                },
            }
            i = i + 1;
        }
        proof {
            assert(inits_check(struct_expr.fields@, kinds(*symbol_table)));
        }
        Ok(())
    }

    /// Check an if expression
    fn check_if_expression(&mut self, if_expr: &IfExpr, symbol_table: &SymbolTable) -> (res: Result<()>)
        requires
            symbol_table.wf(),
        ensures
            *final(self) == *old(self),
            res is Ok <==> expr_checks(Expression::If(*if_expr), kinds(*symbol_table)),
        decreases if_expr,
    {
        self.check_expression(&if_expr.condition, symbol_table)?;
        self.check_expression(&if_expr.then_branch, symbol_table)?;
        match &if_expr.else_branch {
            Some(else_branch) => self.check_expression(else_branch, symbol_table),
            None => Ok(()),
        }
    }

    /// Check a match expression
    fn check_match_expression(&mut self, match_expr: &MatchExpr, symbol_table: &SymbolTable) -> (res: Result<()>)
        requires
            symbol_table.wf(),
        ensures
            *final(self) == *old(self),
            res is Ok <==> expr_checks(Expression::Match(*match_expr), kinds(*symbol_table)),
        decreases match_expr,
    {
        self.check_expression(&match_expr.expr, symbol_table)?;
        let mut i: usize = 0;
        while i < match_expr.arms.len()
            invariant
                symbol_table.wf(),
                *self == *old(self),
                forall|k: int| 0 <= k < i ==> opt_expr_checks(#[trigger] match_expr.arms@[k].guard, kinds(*symbol_table)) && expr_checks(match_expr.arms@[k].body, kinds(*symbol_table)),
            decreases match_expr.arms@.len() - i,
        {
            let arm = &match_expr.arms[i];
            proof {
                assert(decreases_to!(match_expr => match_expr.arms@[i as int].body));
            }
            let r1 = match &arm.guard {
                Some(guard) => {
                    proof {
                        assert(decreases_to!(match_expr => match_expr.arms@[i as int].guard->0));
                    }
                    self.check_expression(guard, symbol_table)
                },
                None => Ok(()),
            };
            let r2 = if r1.is_ok() { self.check_expression(&arm.body, symbol_table) } else { r1 };
            match r2 {
                Ok(()) => {},
                Err(e) => {
                    proof {
                        assert(!expr_arms_check(match_expr.arms@, kinds(*symbol_table)));
                    }
                    return Err(e);
                },
            }
            i = i + 1;
        }
        proof {
            assert(expr_arms_check(match_expr.arms@, kinds(*symbol_table)));
        }
        Ok(())
    }

    /// Check a lambda expression
    fn check_lambda_expression(&mut self, lambda: &LambdaExpr, symbol_table: &SymbolTable) -> (res: Result<()>)
        requires
            symbol_table.wf(),
        ensures
            *final(self) == *old(self),
            res is Ok <==> expr_checks(Expression::Lambda(*lambda), kinds(*symbol_table)),
        decreases lambda,
    {
        let mut i: usize = 0;
        while i < lambda.parameters.len()
            invariant
                symbol_table.wf(),
                *self == *old(self),
                forall|k: int| 0 <= k < i ==> type_known(#[trigger] lambda.parameters@[k].param_type, kinds(*symbol_table)) && opt_expr_checks(lambda.parameters@[k].default_value, kinds(*symbol_table)),
            decreases lambda.parameters@.len() - i,
        {
            let param = &lambda.parameters[i];
            let r1 = self.check_type(&param.param_type, symbol_table);
            let r2 = if r1.is_ok() {
                match &param.default_value {
                    Some(default_value) => {
                        proof {
                            assert(decreases_to!(lambda => lambda.parameters@[i as int].default_value->0));
                        }
                        self.check_expression(default_value, symbol_table)
                    },
                    None => Ok(()),
                }
            } else {
                r1
            };
            match r2 {
                Ok(()) => {},
                Err(e) => {
                    proof {
                        assert(!params_check(lambda.parameters@, kinds(*symbol_table)));
                    }
                    return Err(e);
                },
            }
            i = i + 1;
        }
        proof {
            assert(params_check(lambda.parameters@, kinds(*symbol_table)));
        }
        match &lambda.return_type {
            Some(t) => {
                self.check_type(t, symbol_table)?;
            },
            None => {},
        }
        self.check_expression(&lambda.body, symbol_table)
    }

    /// Check a type: the structs, interfaces and aliases it mentions must be declared
    pub fn check_type(&mut self, type_: &Type, symbol_table: &SymbolTable) -> (res: Result<()>)
        requires
            symbol_table.wf(),
        ensures
            *final(self) == *old(self),
            res is Ok <==> type_known(*type_, kinds(*symbol_table)),
            res is Err ==> unplaced_error(res->Err_0, type_check_message(*type_, kinds(*symbol_table))),
        decreases type_,
    {
        match type_ {
            Type::Array(a) => self.check_type(&a.element_type, symbol_table),
            Type::MapOf(m) => {
                self.check_type(&m.key_type, symbol_table)?;
                self.check_type(&m.value_type, symbol_table)
            },
            Type::Tuple(t) => self.check_types(&t.element_types, symbol_table),
            Type::Struct(s) => {
                let exists = symbol_table.lookup_struct(s.name.as_str()).is_some()
                    || symbol_table.lookup_type(s.name.as_str()).is_some();
                if !exists {
                    let message = concat3("Undefined struct type '", s.name.as_str(), "'");
                    return Err(CompilerError::semantic(0, 0, message.as_str()));
                }
                self.check_types(&s.type_args, symbol_table)
            },
            Type::Interface(i) => {
                if symbol_table.lookup_interface(i.name.as_str()).is_none() {
                    let message = concat3("Undefined interface type '", i.name.as_str(), "'");
                    return Err(CompilerError::semantic(0, 0, message.as_str()));
                }
                self.check_types(&i.type_args, symbol_table)
            },
            Type::Function(f) => {
                self.check_types(&f.parameter_types, symbol_table)?;
                match &f.return_type {
                    Some(r) => self.check_type(r, symbol_table),
                    None => Ok(()),
                }
            },
            Type::Pointer(p) => self.check_type(&p.pointee_type, symbol_table),
            Type::Slice(s) => self.check_type(&s.element_type, symbol_table),
            Type::Channel(c) => self.check_type(&c.element_type, symbol_table),
            Type::Optional(o) => self.check_type(&o.inner_type, symbol_table),
            Type::Error(e) => self.check_type(&e.inner_type, symbol_table),
            Type::Union(u) => self.check_types(&u.member_types, symbol_table),
            Type::Alias(a) => {
                if symbol_table.lookup_type(a.name.as_str()).is_none() {
                    let message = concat3("Undefined type alias '", a.name.as_str(), "'");
                    return Err(CompilerError::semantic(0, 0, message.as_str()));
                }
                self.check_types(&a.type_args, symbol_table)
            },
            _ => Ok(()),
        }
    }
}

/// When the types before `i` are known and type `i` is not, the message for the list is that
/// for type `i`.
proof fn lemma_types_check_first(ts: Seq<Type>, i: int, n: int, names: NameKinds)
    requires
        0 <= i < n <= ts.len(),
        types_known(ts.subrange(0, i), names),
        !type_known(ts[i], names),
    ensures
        types_check_message(ts.subrange(0, n), names) == type_check_message(ts[i], names),
        !types_known(ts.subrange(0, n), names),
    decreases n - i,
{
    if n == i + 1 {
        assert(ts.subrange(0, n).subrange(0, i) =~= ts.subrange(0, i));
    } else {
        lemma_types_check_first(ts, i, n - 1, names);
        assert(ts.subrange(0, n).subrange(0, n - 1) =~= ts.subrange(0, n - 1));
    }
}

impl Default for SemanticChecker {
    fn default() -> (res: Self)
        ensures
            res.ctx().current_function is None,
            res.ctx().loop_depth == 0,
            res.ctx().try_depth == 0,
    {
        SemanticChecker::new()
    }
}

} // verus!
