//! How deeply loops and `try` blocks nest in statements.
use vstd::prelude::*;
use crate::ast::{Declaration, FunctionDecl, Program};
use crate::ast::stmt::{Statement, MatchArmStmt, CatchHandlerStmt, MatchStmt, TryStmt, BlockStmt};

verus! {

/// The larger of two numbers.
pub open spec fn nat_max(a: nat, b: nat) -> nat {
    if a >= b { a } else { b }
}

/// How deeply `for`, `while` and `try` statements nest in a statement.
pub open spec fn nesting(s: Statement) -> nat
    decreases s,
{
    match s {
        Statement::If(i) => nat_max(
            nesting(*i.then_branch),
            match i.else_branch {
                Some(e) => nesting(*e),
                None => 0,
            },
        ),
        Statement::For(f) => 1 + nesting(*f.body),
        Statement::While(w) => 1 + nesting(*w.body),
        Statement::Match(m) => arms_nesting(m.arms@),
        Statement::Try(t) => 1 + nat_max(nesting(*t.try_block), handlers_nesting(t.catch_handlers@)),
        Statement::Block(b) => stmts_nesting(b.statements@),
        _ => 0,
    }
}

/// The deepest nesting among statements.
pub open spec fn stmts_nesting(ss: Seq<Statement>) -> nat
    decreases ss,
{
    if ss.len() == 0 {
        0
    } else {
        nat_max(nesting(ss[ss.len() - 1]), stmts_nesting(ss.subrange(0, ss.len() - 1)))
    }
}

/// The deepest nesting among the bodies of match arms.
pub open spec fn arms_nesting(arms: Seq<MatchArmStmt>) -> nat
    decreases arms,
{
    if arms.len() == 0 {
        0
    } else {
        nat_max(nesting(arms[arms.len() - 1].body), arms_nesting(arms.subrange(0, arms.len() - 1)))
    }
}

/// The deepest nesting among the bodies of catch handlers.
pub open spec fn handlers_nesting(hs: Seq<CatchHandlerStmt>) -> nat
    decreases hs,
{
    if hs.len() == 0 {
        0
    } else {
        nat_max(nesting(hs[hs.len() - 1].body), handlers_nesting(hs.subrange(0, hs.len() - 1)))
    }
}

/// How deeply statements nest in a function's body.
pub open spec fn function_nesting(f: FunctionDecl) -> nat {
    match f.body {
        Some(b) => stmts_nesting(b.statements@),
        None => 0,
    }
}

/// The deepest nesting among functions.
pub open spec fn functions_nesting(fs: Seq<FunctionDecl>) -> nat
    decreases fs.len(),
{
    if fs.len() == 0 {
        0
    } else {
        nat_max(function_nesting(fs.last()), functions_nesting(fs.drop_last()))
    }
}

/// How deeply statements nest in the functions of a declaration.
pub open spec fn declaration_nesting(d: Declaration) -> nat {
    match d {
        Declaration::Function(f) => function_nesting(f),
        Declaration::Struct(s) => functions_nesting(s.methods@),
        Declaration::Impl(i) => functions_nesting(i.methods@),
        _ => 0,
    }
}

/// The deepest nesting among declarations.
pub open spec fn declarations_nesting(ds: Seq<Declaration>) -> nat
    decreases ds.len(),
{
    if ds.len() == 0 {
        0
    } else {
        nat_max(declaration_nesting(ds.last()), declarations_nesting(ds.drop_last()))
    }
}

/// How deeply statements nest anywhere in a program.
pub open spec fn program_nesting(p: Program) -> nat {
    declarations_nesting(p.declarations@)
}

/// Each statement nests no deeper than the list of them.
pub proof fn lemma_stmts_nesting(ss: Seq<Statement>, i: int)
    requires
        0 <= i < ss.len(),
    ensures
        nesting(ss[i]) <= stmts_nesting(ss),
    decreases ss.len(),
{
    if i < ss.len() - 1 {
        lemma_stmts_nesting(ss.subrange(0, ss.len() - 1), i);
    }
}

/// Each arm nests no deeper than the list of them.
pub proof fn lemma_arms_nesting(arms: Seq<MatchArmStmt>, i: int)
    requires
        0 <= i < arms.len(),
    ensures
        nesting(arms[i].body) <= arms_nesting(arms),
    decreases arms.len(),
{
    if i < arms.len() - 1 {
        lemma_arms_nesting(arms.subrange(0, arms.len() - 1), i);
    }
}

/// Each handler nests no deeper than the list of them.
pub proof fn lemma_handlers_nesting(hs: Seq<CatchHandlerStmt>, i: int)
    requires
        0 <= i < hs.len(),
    ensures
        nesting(hs[i].body) <= handlers_nesting(hs),
    decreases hs.len(),
{
    if i < hs.len() - 1 {
        lemma_handlers_nesting(hs.subrange(0, hs.len() - 1), i);
    }
}

/// Each function nests no deeper than the list of them.
pub proof fn lemma_functions_nesting(fs: Seq<FunctionDecl>, i: int)
    requires
        0 <= i < fs.len(),
    ensures
        function_nesting(fs[i]) <= functions_nesting(fs),
    decreases fs.len(),
{
    if i < fs.len() - 1 {
        lemma_functions_nesting(fs.drop_last(), i);
    }
}

/// Each declaration nests no deeper than the list of them.
pub proof fn lemma_declarations_nesting(ds: Seq<Declaration>, i: int)
    requires
        0 <= i < ds.len(),
    ensures
        declaration_nesting(ds[i]) <= declarations_nesting(ds),
    decreases ds.len(),
{
    if i < ds.len() - 1 {
        lemma_declarations_nesting(ds.drop_last(), i);
    }
}

/// `n`, or `usize::MAX` when `n` is larger.
pub open spec fn capped(n: nat) -> nat {
    if n < usize::MAX { n } else { usize::MAX as nat }
}

fn max_usize(a: usize, b: usize) -> (res: usize)
    ensures
        res == nat_max(a as nat, b as nat),
{
    if a >= b { a } else { b }
}

fn one_deeper(d: usize) -> (res: usize)
    ensures
        res == if d == usize::MAX { d as int } else { d + 1 },
{
    if d == usize::MAX { d } else { d + 1 }
}

/// How deeply `for`, `while` and `try` statements nest in a statement, capped at `usize::MAX`
pub fn statement_depth(statement: &Statement) -> (res: usize)
    ensures
        res == capped(nesting(*statement)),
    decreases statement,
{
    match statement {
        Statement::If(i) => {
            let a = statement_depth(&i.then_branch);
            let b = match &i.else_branch {
                Some(e) => statement_depth(e),
                None => 0,
            };
            max_usize(a, b)
        },
        Statement::For(f) => one_deeper(statement_depth(&f.body)),
        Statement::While(w) => one_deeper(statement_depth(&w.body)),
        Statement::Match(m) => match_depth(m),
        Statement::Try(t) => {
            let handlers = handlers_depth(t);
            let inner = statement_depth(&t.try_block);
            one_deeper(max_usize(inner, handlers))
        },
        Statement::Block(b) => block_depth(b),
        _ => 0,
    }
}

/// The deepest nesting among the arms of a match statement, capped at `usize::MAX`
fn match_depth(m: &MatchStmt) -> (res: usize)
    ensures
        res == capped(arms_nesting(m.arms@)),
    decreases m,
{
    let ghost arms = m.arms@;
    let mut acc: usize = 0;
    let mut i: usize = 0;
    while i < m.arms.len()
        invariant
            arms == m.arms@,
            i <= arms.len(),
            acc == capped(arms_nesting(arms.subrange(0, i as int))),
        decreases arms.len() - i,
    {
        proof {
            assert(decreases_to!(m => m.arms@[i as int].body));
            assert(arms.subrange(0, i + 1).subrange(0, i as int) =~= arms.subrange(0, i as int));
        }
        let d = statement_depth(&m.arms[i].body);
        acc = max_usize(d, acc);
        i = i + 1;
    }
    proof {
        assert(arms.subrange(0, arms.len() as int) =~= arms);
    }
    acc
}

/// The deepest nesting among the catch handlers of a try statement, capped at `usize::MAX`
fn handlers_depth(t: &TryStmt) -> (res: usize)
    ensures
        res == capped(handlers_nesting(t.catch_handlers@)),
    decreases t,
{
    let ghost hs = t.catch_handlers@;
    let mut acc: usize = 0;
    let mut i: usize = 0;
    while i < t.catch_handlers.len()
        invariant
            hs == t.catch_handlers@,
            i <= hs.len(),
            acc == capped(handlers_nesting(hs.subrange(0, i as int))),
        decreases hs.len() - i,
    {
        proof {
            assert(decreases_to!(t => t.catch_handlers@[i as int].body));
            assert(hs.subrange(0, i + 1).subrange(0, i as int) =~= hs.subrange(0, i as int));
        }
        let d = statement_depth(&t.catch_handlers[i].body);
        acc = max_usize(d, acc);
        i = i + 1;
    }
    proof {
        assert(hs.subrange(0, hs.len() as int) =~= hs);
    }
    acc
}

/// The deepest nesting among the statements of a block, capped at `usize::MAX`
fn block_depth(b: &BlockStmt) -> (res: usize)
    ensures
        res == capped(stmts_nesting(b.statements@)),
    decreases b,
{
    let ghost ss = b.statements@;
    let mut acc: usize = 0;
    let mut i: usize = 0;
    while i < b.statements.len()
        invariant
            ss == b.statements@,
            i <= ss.len(),
            acc == capped(stmts_nesting(ss.subrange(0, i as int))),
        decreases ss.len() - i,
    {
        proof {
            assert(decreases_to!(b => b.statements@[i as int]));
            assert(ss.subrange(0, i + 1).subrange(0, i as int) =~= ss.subrange(0, i as int));
        }
        let d = statement_depth(&b.statements[i]);
        acc = max_usize(d, acc);
        i = i + 1;
    }
    proof {
        assert(ss.subrange(0, ss.len() as int) =~= ss);
    }
    acc
}

/// How deeply statements nest in a function's body, capped at `usize::MAX`
fn function_depth(func: &FunctionDecl) -> (res: usize)
    ensures
        res == capped(function_nesting(*func)),
{
    match &func.body {
        Some(body) => {
            let ghost ss = body.statements@;
            let mut acc: usize = 0;
            let mut i: usize = 0;
            while i < body.statements.len()
                invariant
                    ss == body.statements@,
                    i <= ss.len(),
                    acc == capped(stmts_nesting(ss.subrange(0, i as int))),
                decreases ss.len() - i,
            {
                proof {
                    assert(ss.subrange(0, i + 1).subrange(0, i as int) =~= ss.subrange(0, i as int));
                }
                let d = statement_depth(&body.statements[i]);
                acc = max_usize(d, acc);
                i = i + 1;
            }
            proof {
                assert(ss.subrange(0, ss.len() as int) =~= ss);
            }
            acc
        },
        None => 0,
    }
}

/// How deeply statements nest among functions, capped at `usize::MAX`
fn functions_depth(fs: &Vec<FunctionDecl>) -> (res: usize)
    ensures
        res == capped(functions_nesting(fs@)),
{
    let mut acc: usize = 0;
    let mut i: usize = 0;
    while i < fs.len()
        invariant
            i <= fs@.len(),
            acc == capped(functions_nesting(fs@.take(i as int))),
        decreases fs@.len() - i,
    {
        proof {
            assert(fs@.take(i + 1).drop_last() =~= fs@.take(i as int));
        }
        let d = function_depth(&fs[i]);
        acc = max_usize(d, acc);
        i = i + 1;
    }
    proof {
        assert(fs@.take(fs@.len() as int) =~= fs@);
    }
    acc
}

/// How deeply `for`, `while` and `try` statements nest anywhere in a program, capped at
/// `usize::MAX`
pub fn program_depth(program: &Program) -> (res: usize)
    ensures
        res == capped(program_nesting(*program)),
{
    let ds = &program.declarations;
    let mut acc: usize = 0;
    let mut i: usize = 0;
    while i < ds.len()
        invariant
            i <= ds@.len(),
            acc == capped(declarations_nesting(ds@.take(i as int))),
        decreases ds@.len() - i,
    {
        proof {
            assert(ds@.take(i + 1).drop_last() =~= ds@.take(i as int));
        }
        let d = match &ds[i] {
            Declaration::Function(f) => function_depth(f),
            Declaration::Struct(st) => functions_depth(&st.methods),
            Declaration::Impl(im) => functions_depth(&im.methods),
            _ => 0,
        };
        acc = max_usize(d, acc);
        i = i + 1;
    }
    proof {
        assert(ds@.take(ds@.len() as int) =~= ds@);
    }
    acc
}

} // verus!
