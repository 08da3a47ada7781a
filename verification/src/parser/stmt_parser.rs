//! Statement parser for Nature language
use vstd::prelude::*;
use crate::ast::stmt::{Statement, VariableDeclStmt, ConstantDeclStmt, IfStmt, ForStmt, WhileStmt, MatchStmt, MatchArmStmt, ReturnStmt, BreakStmt, ContinueStmt, TryStmt, CatchHandlerStmt, ThrowStmt, SelectStmt, SelectCaseStmt, GoStmt, BlockStmt, ExportStmt, ExportItem};
use crate::ast::expr::{Expression, Literal, Pattern};
use crate::ast::decl::{VariableDecl, ConstantDecl};
use crate::error::{CompilerError, Location, Result};
use crate::lexer::token::{Token, TokenKind};
use super::{Parser, advanced, cur_identifier, TokenInput, Spot, Failure, read_fails_at, read_at, measure_at, smaller,
    lexical_failure, stalled, consume_at, expect_at, location_of, fails_with, kind_of};
use super::decl_parser::{Parsed, gives, cur_identifier_at};
use super::expr_parser::{parse_expression, parse_pattern_or, cur_name, starts_expression, cur_starts_expression, gives_pattern, pattern_or_at, expr_at, ExprParse};
use super::type_parser::{type_at, TypeParse};
use super::decl_parser::opt_type_model;
use crate::ast::expr::ExprModel;
use crate::ast::stmt::{StmtModel, stmt_models, lemma_stmt_models_push, exported_names, handler_models, lemma_handler_models_push, case_models, lemma_case_models_push};
use crate::ast::types::TypeModel;
use super::type_parser::parse_type;

verus! {

/// What parsing a statement gives: a failure, a form this description leaves open (an
/// expression that holds code), or the statement's value and where the parser then stands.
pub enum StmtParse<V> {
    Failed(Failure),
    Open,
    Done(V, Spot),
}

/// A parser that gave `res` and stands at `p` did what `o` says, where `view` reads a result.
pub open spec fn gives_stmt<T, V>(res: Result<T>, p: Parser, o: StmtParse<V>, view: spec_fn(T) -> V) -> bool {
    match o {
        StmtParse::Failed(f) => res is Err && fails_with(res->Err_0, f),
        StmtParse::Open => true,
        StmtParse::Done(v, sp) => p.spot() == sp && (res matches Ok(x) && view(x) == v),
    }
}

/// The model of an expression that may be absent.
pub open spec fn opt_expr_model(e: Option<Expression>) -> Option<ExprModel> {
    match e {
        Some(e) => Some(e.model()),
        None => None,
    }
}

/// A variable declaration: `var`, a name, `:` and a type if any, `=` and an initial value if
/// any, and `;` if it is there; the name, the type, the initial value and the location after.
pub open spec fn var_decl_at(inp: TokenInput, s: Spot) -> StmtParse<(Seq<char>, Option<TypeModel>, Option<ExprModel>, Location)> {
    match expect_at(inp, s, Token::Var) {
        Err(f) => StmtParse::Failed(f),
        Ok(s1) => match cur_identifier_at(s1) {
            None => StmtParse::Failed(Failure::Syntax(location_of(s1.current), "Expected variable name after 'var'"@)),
            Some(name) => if read_fails_at(inp, s1) {
                StmtParse::Failed(lexical_failure(inp))
            } else {
                let ty = match consume_at(inp, read_at(inp, s1), TokenKind::Colon) {
                    Err(f) => TypeParse::Failed(f),
                    Ok((false, s2)) => TypeParse::Parsed(None, s2),
                    Ok((true, s2)) => type_at(inp, s2),
                };
                match ty {
                    TypeParse::Failed(f) => StmtParse::Failed(f),
                    TypeParse::Parsed(t, s3) => {
                        let init = match consume_at(inp, s3, TokenKind::Assign) {
                            Err(f) => ExprParse::Failed(f),
                            Ok((false, s4)) => ExprParse::Parsed(None, s4),
                            Ok((true, s4)) => expr_at(inp, s4, 20),
                        };
                        match init {
                            ExprParse::Failed(f) => StmtParse::Failed(f),
                            ExprParse::Open => StmtParse::Open,
                            ExprParse::Parsed(e, s5) => match consume_at(inp, s5, TokenKind::Semicolon) {
                                Err(f) => StmtParse::Failed(f),
                                Ok((_, s6)) => StmtParse::Done((name, t, e, location_of(s6.current)), s6),
                            },
                        }
                    },
                }
            },
        },
    }
}

/// A `return` statement: the value, if one comes before `;`, then `;` if it is there; the
/// value and the location after.
pub open spec fn return_at(inp: TokenInput, s: Spot) -> StmtParse<(Option<ExprModel>, Location)> {
    match expect_at(inp, s, Token::Return) {
        Err(f) => StmtParse::Failed(f),
        Ok(s1) => {
            let value = if kind_of(s1.current) == Some(TokenKind::Semicolon) {
                ExprParse::Parsed(None, s1)
            } else {
                expr_at(inp, s1, 20)
            };
            match value {
                ExprParse::Failed(f) => StmtParse::Failed(f),
                ExprParse::Open => StmtParse::Open,
                ExprParse::Parsed(v, s2) => match consume_at(inp, s2, TokenKind::Semicolon) {
                    Err(f) => StmtParse::Failed(f),
                    Ok((_, s3)) => StmtParse::Done((v, location_of(s3.current)), s3),
                },
            }
        },
    }
}

/// A `throw` statement: an expression and `;`; the exception and the location after.
pub open spec fn throw_at(inp: TokenInput, s: Spot) -> StmtParse<(ExprModel, Location)> {
    match expect_at(inp, s, Token::Throw) {
        Err(f) => StmtParse::Failed(f),
        Ok(s1) => match expr_at(inp, s1, 20) {
            ExprParse::Failed(f) => StmtParse::Failed(f),
            ExprParse::Open => StmtParse::Open,
            ExprParse::Parsed(None, s2) => StmtParse::Failed(
                Failure::Syntax(location_of(s2.current), "Expected exception after 'throw'"@)),
            ExprParse::Parsed(Some(e), s2) => match expect_at(inp, s2, Token::Semicolon) {
                Err(f) => StmtParse::Failed(f),
                Ok(s3) => StmtParse::Done((e, location_of(s3.current)), s3),
            },
        },
    }
}

/// A `go` statement: a call and `;`; the call and the location after.
pub open spec fn go_at(inp: TokenInput, s: Spot) -> StmtParse<(ExprModel, Location)> {
    match expect_at(inp, s, Token::Go) {
        Err(f) => StmtParse::Failed(f),
        Ok(s1) => match expr_at(inp, s1, 20) {
            ExprParse::Failed(f) => StmtParse::Failed(f),
            ExprParse::Open => StmtParse::Open,
            ExprParse::Parsed(Some(ExprModel::Call(callee, targs, args, loc)), s2) => match expect_at(inp, s2, Token::Semicolon) {
                Err(f) => StmtParse::Failed(f),
                Ok(s3) => StmtParse::Done((ExprModel::Call(callee, targs, args, loc), location_of(s3.current)), s3),
            },
            ExprParse::Parsed(_, s2) => StmtParse::Failed(
                Failure::Syntax(location_of(s2.current), "Expected function call after 'go'"@)),
        },
    }
}

/// An expression statement: an expression, then `;` if it is there; none where no expression
/// starts.
pub open spec fn expr_stmt_at(inp: TokenInput, s: Spot) -> StmtParse<Option<ExprModel>> {
    match expr_at(inp, s, 20) {
        ExprParse::Failed(f) => StmtParse::Failed(f),
        ExprParse::Open => StmtParse::Open,
        ExprParse::Parsed(None, s1) => StmtParse::Done(None, s1),
        ExprParse::Parsed(Some(e), s1) => match consume_at(inp, s1, TokenKind::Semicolon) {
            Err(f) => StmtParse::Failed(f),
            Ok((_, s2)) => StmtParse::Done(Some(e), s2),
        },
    }
}

/// The model of a statement that may be absent.
pub open spec fn opt_stmt_model(s: Option<Statement>) -> Option<StmtModel> {
    match s {
        Some(s) => Some(s.model()),
        None => None,
    }
}

/// A statement: a variable or constant declaration, `return`, `throw`, `go`, `break`,
/// `continue`, `if`, `while`, `for`, `try`, `export` or a block, each as its own parser reads
/// it, `select`, or an expression statement; none where no statement starts. `match`
/// statements are left open.
pub open spec fn stmt_at(inp: TokenInput, s: Spot) -> StmtParse<Option<StmtModel>>
    decreases measure_at(inp, s), 10int,
{
    match kind_of(s.current) {
        None => StmtParse::Done(None, s),
        Some(k) => if k == TokenKind::Var {
            match var_decl_at(inp, s) {
                StmtParse::Failed(f) => StmtParse::Failed(f),
                StmtParse::Open => StmtParse::Open,
                StmtParse::Done((n, t, e, l), s1) => StmtParse::Done(Some(StmtModel::VariableDecl(n, t, e, true, l)), s1),
            }
        } else if k == TokenKind::Return {
            match return_at(inp, s) {
                StmtParse::Failed(f) => StmtParse::Failed(f),
                StmtParse::Open => StmtParse::Open,
                StmtParse::Done((v, l), s1) => StmtParse::Done(Some(StmtModel::Return(v, l)), s1),
            }
        } else if k == TokenKind::Throw {
            match throw_at(inp, s) {
                StmtParse::Failed(f) => StmtParse::Failed(f),
                StmtParse::Open => StmtParse::Open,
                StmtParse::Done((e, l), s1) => StmtParse::Done(Some(StmtModel::Throw(e, l)), s1),
            }
        } else if k == TokenKind::Go {
            match go_at(inp, s) {
                StmtParse::Failed(f) => StmtParse::Failed(f),
                StmtParse::Open => StmtParse::Open,
                StmtParse::Done((e, l), s1) => StmtParse::Done(Some(StmtModel::Go(e, l)), s1),
            }
        } else if k == TokenKind::Break || k == TokenKind::Continue {
            match jump_at(inp, s, if k == TokenKind::Break { Token::Break } else { Token::Continue }) {
                Parsed::Failed(f) => StmtParse::Failed(f),
                Parsed::Done((label, l), s1) => StmtParse::Done(Some(
                    if k == TokenKind::Break { StmtModel::Break(label, l) } else { StmtModel::Continue(label, l) }), s1),
            }
        } else if k == TokenKind::If {
            match if_at(inp, s) {
                StmtParse::Failed(f) => StmtParse::Failed(f),
                StmtParse::Open => StmtParse::Open,
                StmtParse::Done(m, s1) => StmtParse::Done(Some(m), s1),
            }
        } else if k == TokenKind::While {
            match while_at(inp, s) {
                StmtParse::Failed(f) => StmtParse::Failed(f),
                StmtParse::Open => StmtParse::Open,
                StmtParse::Done(m, s1) => StmtParse::Done(Some(m), s1),
            }
        } else if k == TokenKind::LeftBrace {
            match block_at(inp, s) {
                StmtParse::Failed(f) => StmtParse::Failed(f),
                StmtParse::Open => StmtParse::Open,
                StmtParse::Done(m, s1) => StmtParse::Done(Some(m), s1),
            }
        } else if k == TokenKind::For {
            match for_at(inp, s) {
                StmtParse::Failed(f) => StmtParse::Failed(f),
                StmtParse::Open => StmtParse::Open,
                StmtParse::Done(m, s1) => StmtParse::Done(Some(m), s1),
            }
        } else if k == TokenKind::Const {
            match const_decl_at(inp, s) {
                StmtParse::Failed(f) => StmtParse::Failed(f),
                StmtParse::Open => StmtParse::Open,
                StmtParse::Done((n, t, v, l), s1) => StmtParse::Done(Some(StmtModel::ConstantDecl(n, t, v, l)), s1),
            }
        } else if k == TokenKind::Try {
            match try_at(inp, s) {
                StmtParse::Failed(f) => StmtParse::Failed(f),
                StmtParse::Open => StmtParse::Open,
                StmtParse::Done(m, s1) => StmtParse::Done(Some(m), s1),
            }
        } else if k == TokenKind::Select {
            match select_at(inp, s) {
                StmtParse::Failed(f) => StmtParse::Failed(f),
                StmtParse::Open => StmtParse::Open,
                StmtParse::Done(m, s1) => StmtParse::Done(Some(m), s1),
            }
        } else if k == TokenKind::Export {
            match export_at(inp, s) {
                Parsed::Failed(f) => StmtParse::Failed(f),
                Parsed::Done((ns, l), s1) => StmtParse::Done(Some(StmtModel::Export(ns, l)), s1),
            }
        } else if is_statement_keyword(k) {
            StmtParse::Open
        } else {
            match expr_stmt_at(inp, s) {
                StmtParse::Failed(f) => StmtParse::Failed(f),
                StmtParse::Open => StmtParse::Open,
                StmtParse::Done(None, s1) => StmtParse::Done(None, s1),
                StmtParse::Done(Some(e), s1) => StmtParse::Done(Some(StmtModel::Expression(e)), s1),
            }
        },
    }
}

/// A constant declaration: `const`, a name, `:` and a type if any, `=`, a value and `;`; the
/// name, the type, the value and the location after.
pub open spec fn const_decl_at(inp: TokenInput, s: Spot) -> StmtParse<(Seq<char>, Option<TypeModel>, ExprModel, Location)> {
    match expect_at(inp, s, Token::Const) {
        Err(f) => StmtParse::Failed(f),
        Ok(s1) => match cur_identifier_at(s1) {
            None => StmtParse::Failed(Failure::Syntax(location_of(s1.current), "Expected constant name after 'const'"@)),
            Some(name) => if read_fails_at(inp, s1) {
                StmtParse::Failed(lexical_failure(inp))
            } else {
                let ty = match consume_at(inp, read_at(inp, s1), TokenKind::Colon) {
                    Err(f) => TypeParse::Failed(f),
                    Ok((false, s2)) => TypeParse::Parsed(None, s2),
                    Ok((true, s2)) => type_at(inp, s2),
                };
                match ty {
                    TypeParse::Failed(f) => StmtParse::Failed(f),
                    TypeParse::Parsed(t, s3) => match expect_at(inp, s3, Token::Assign) {
                        Err(f) => StmtParse::Failed(f),
                        Ok(s4) => match expr_at(inp, s4, 20) {
                            ExprParse::Failed(f) => StmtParse::Failed(f),
                            ExprParse::Open => StmtParse::Open,
                            ExprParse::Parsed(None, s5) => StmtParse::Failed(
                                Failure::Syntax(location_of(s5.current), "Expected value after '='"@)),
                            ExprParse::Parsed(Some(v), s5) => match expect_at(inp, s5, Token::Semicolon) {
                                Err(f) => StmtParse::Failed(f),
                                Ok(s6) => StmtParse::Done((name, t, v, location_of(s6.current)), s6),
                            },
                        },
                    },
                }
            },
        },
    }
}

/// A `for` statement: a variable name, `in`, an iterable and a statement.
pub open spec fn for_at(inp: TokenInput, s: Spot) -> StmtParse<StmtModel>
    decreases measure_at(inp, s), 9int,
{
    match expect_at(inp, s, Token::For) {
        Err(f) => StmtParse::Failed(f),
        Ok(s1) => match cur_identifier_at(s1) {
            None => StmtParse::Failed(Failure::Syntax(location_of(s1.current), "Expected variable name after 'for'"@)),
            Some(v) => if read_fails_at(inp, s1) {
                StmtParse::Failed(lexical_failure(inp))
            } else {
                match expect_at(inp, read_at(inp, s1), Token::In) {
                    Err(f) => StmtParse::Failed(f),
                    Ok(s2) => match expr_at(inp, s2, 20) {
                        ExprParse::Failed(f) => StmtParse::Failed(f),
                        ExprParse::Open => StmtParse::Open,
                        ExprParse::Parsed(None, s3) => StmtParse::Failed(
                            Failure::Syntax(location_of(s3.current), "Expected iterable after 'in'"@)),
                        ExprParse::Parsed(Some(it), s3) => if !smaller(inp, s3, s) {
                            StmtParse::Failed(stalled())
                        } else {
                            match stmt_at(inp, s3) {
                                StmtParse::Failed(f) => StmtParse::Failed(f),
                                StmtParse::Open => StmtParse::Open,
                                StmtParse::Done(None, s4) => StmtParse::Failed(
                                    Failure::Syntax(location_of(s4.current), "Expected statement after for loop"@)),
                                StmtParse::Done(Some(b), s4) => StmtParse::Done(
                                    StmtModel::For(v, it, Box::new(b), location_of(s4.current)), s4),
                            }
                        },
                    },
                }
            },
        },
    }
}

/// A `try` statement: `try`, a statement, then its catch handlers.
pub open spec fn try_at(inp: TokenInput, s: Spot) -> StmtParse<StmtModel>
    decreases measure_at(inp, s), 9int,
{
    match expect_at(inp, s, Token::Try) {
        Err(f) => StmtParse::Failed(f),
        Ok(s1) => if !smaller(inp, s1, s) {
            StmtParse::Failed(stalled())
        } else {
            match stmt_at(inp, s1) {
                StmtParse::Failed(f) => StmtParse::Failed(f),
                StmtParse::Open => StmtParse::Open,
                StmtParse::Done(None, s2) => StmtParse::Failed(
                    Failure::Syntax(location_of(s2.current), "Expected statement after 'try'"@)),
                StmtParse::Done(Some(b), s2) => if !smaller(inp, s2, s) {
                    StmtParse::Failed(stalled())
                } else {
                    try_result(b, handlers_at(inp, s2, Seq::empty()))
                },
            }
        },
    }
}

/// A `try` statement over the statement `b`, with the catch handlers that `o` gives.
pub open spec fn try_result(b: StmtModel, o: StmtParse<Seq<(TypeModel, Seq<char>, StmtModel, Location)>>) -> StmtParse<StmtModel> {
    match o {
        StmtParse::Failed(f) => StmtParse::Failed(f),
        StmtParse::Open => StmtParse::Open,
        StmtParse::Done(hs, s3) => StmtParse::Done(StmtModel::Try(Box::new(b), hs, location_of(s3.current)), s3),
    }
}

/// The catch handlers after those in `acc`, each `catch`, then a variable, `:`, an exception
/// type and a statement; a `catch` without a variable is passed over, and so is a handler
/// without a statement. They end where no `catch` comes.
pub open spec fn handlers_at(inp: TokenInput, s: Spot, acc: Seq<(TypeModel, Seq<char>, StmtModel, Location)>)
    -> StmtParse<Seq<(TypeModel, Seq<char>, StmtModel, Location)>>
    decreases measure_at(inp, s), 11int,
{
    match consume_at(inp, s, TokenKind::Catch) {
        Err(f) => StmtParse::Failed(f),
        Ok((false, s1)) => StmtParse::Done(acc, s1),
        Ok((true, s1)) => if !smaller(inp, s1, s) {
            StmtParse::Failed(stalled())
        } else {
            match cur_identifier_at(s1) {
                None => handlers_at(inp, s1, acc),
                Some(v) => if read_fails_at(inp, s1) {
                    StmtParse::Failed(lexical_failure(inp))
                } else {
                    match expect_at(inp, read_at(inp, s1), Token::Colon) {
                        Err(f) => StmtParse::Failed(f),
                        Ok(s2) => match type_at(inp, s2) {
                            TypeParse::Failed(f) => StmtParse::Failed(f),
                            TypeParse::Parsed(None, s3) => StmtParse::Failed(
                                Failure::Syntax(location_of(s3.current), "Expected exception type after ':'"@)),
                            TypeParse::Parsed(Some(t), s3) => if !smaller(inp, s3, s) {
                                StmtParse::Failed(stalled())
                            } else {
                                match stmt_at(inp, s3) {
                                    StmtParse::Failed(f) => StmtParse::Failed(f),
                                    StmtParse::Open => StmtParse::Open,
                                    StmtParse::Done(b, s4) => if !smaller(inp, s4, s) {
                                        StmtParse::Failed(stalled())
                                    } else {
                                        match b {
                                            None => handlers_at(inp, s4, acc),
                                            Some(b) => handlers_at(inp, s4, acc.push((t, v, b, location_of(s4.current)))),
                                        }
                                    },
                                }
                            },
                        },
                    }
                },
            }
        },
    }
}

/// A `select` statement: `select`, `{`, its cases, then `}`.
pub open spec fn select_at(inp: TokenInput, s: Spot) -> StmtParse<StmtModel>
    decreases measure_at(inp, s), 9int,
{
    match expect_at(inp, s, Token::Select) {
        Err(f) => StmtParse::Failed(f),
        Ok(s1) => match expect_at(inp, s1, Token::LeftBrace) {
            Err(f) => StmtParse::Failed(f),
            Ok(s2) => if !smaller(inp, s2, s) {
                StmtParse::Failed(stalled())
            } else {
                select_close(inp, cases_at(inp, s2, Seq::empty()))
            },
        },
    }
}

/// A `select` statement with the cases and default that `o` gives, closed by `}`.
pub open spec fn select_close(inp: TokenInput, o: StmtParse<(Seq<(ExprModel, StmtModel, Location)>, Option<StmtModel>)>)
    -> StmtParse<StmtModel>
{
    match o {
        StmtParse::Failed(f) => StmtParse::Failed(f),
        StmtParse::Open => StmtParse::Open,
        StmtParse::Done((cs, d), s3) => match expect_at(inp, s3, Token::RightBrace) {
            Err(f) => StmtParse::Failed(f),
            Ok(s4) => StmtParse::Done(StmtModel::Select(cs,
                match d { Some(d) => Some(Box::new(d)), None => None }, location_of(s4.current)), s4),
        },
    }
}

/// The cases of a `select` after those in `acc`, each a channel expression, `=>` and a
/// statement, separated by `,`; a `default`, `=>` and a statement end them, as do `}`, a place
/// where no channel expression starts, and a case without `,` after it. A case without a
/// statement is passed over. The cases, and the default statement if any.
pub open spec fn cases_at(inp: TokenInput, s: Spot, acc: Seq<(ExprModel, StmtModel, Location)>)
    -> StmtParse<(Seq<(ExprModel, StmtModel, Location)>, Option<StmtModel>)>
    decreases measure_at(inp, s), 11int,
{
    if kind_of(s.current) == Some(TokenKind::RightBrace) {
        StmtParse::Done((acc, None), s)
    } else {
        match consume_at(inp, s, TokenKind::Default) {
            Err(f) => StmtParse::Failed(f),
            Ok((true, s1)) => match expect_at(inp, s1, Token::Arrow) {
                Err(f) => StmtParse::Failed(f),
                Ok(s2) => if !smaller(inp, s2, s) {
                    StmtParse::Failed(stalled())
                } else {
                    match stmt_at(inp, s2) {
                        StmtParse::Failed(f) => StmtParse::Failed(f),
                        StmtParse::Open => StmtParse::Open,
                        StmtParse::Done(d, s3) => StmtParse::Done((acc, d), s3),
                    }
                },
            },
            Ok((false, s1)) => match expr_at(inp, s1, 20) {
                ExprParse::Failed(f) => StmtParse::Failed(f),
                ExprParse::Open => StmtParse::Open,
                ExprParse::Parsed(None, s2) => StmtParse::Done((acc, None), s2),
                ExprParse::Parsed(Some(c), s2) => match expect_at(inp, s2, Token::Arrow) {
                    Err(f) => StmtParse::Failed(f),
                    Ok(s3) => if !smaller(inp, s3, s) {
                        StmtParse::Failed(stalled())
                    } else {
                        match stmt_at(inp, s3) {
                            StmtParse::Failed(f) => StmtParse::Failed(f),
                            StmtParse::Open => StmtParse::Open,
                            StmtParse::Done(b, s4) => {
                                let acc2 = match b {
                                    None => acc,
                                    Some(b) => acc.push((c, b, location_of(s4.current))),
                                };
                                match consume_at(inp, s4, TokenKind::Comma) {
                                    Err(f) => StmtParse::Failed(f),
                                    Ok((false, s5)) => StmtParse::Done((acc2, None), s5),
                                    Ok((true, s5)) => if !smaller(inp, s5, s) {
                                        StmtParse::Failed(stalled())
                                    } else {
                                        cases_at(inp, s5, acc2)
                                    },
                                }
                            },
                        }
                    },
                },
            },
        }
    }
}

/// An `if` statement: a condition, a statement, then `else` and a statement if any.
pub open spec fn if_at(inp: TokenInput, s: Spot) -> StmtParse<StmtModel>
    decreases measure_at(inp, s), 9int,
{
    match expect_at(inp, s, Token::If) {
        Err(f) => StmtParse::Failed(f),
        Ok(s1) => match expr_at(inp, s1, 20) {
            ExprParse::Failed(f) => StmtParse::Failed(f),
            ExprParse::Open => StmtParse::Open,
            ExprParse::Parsed(None, s2) => StmtParse::Failed(
                Failure::Syntax(location_of(s2.current), "Expected condition after 'if'"@)),
            ExprParse::Parsed(Some(c), s2) => if !smaller(inp, s2, s) {
                StmtParse::Failed(stalled())
            } else {
                match stmt_at(inp, s2) {
                    StmtParse::Failed(f) => StmtParse::Failed(f),
                    StmtParse::Open => StmtParse::Open,
                    StmtParse::Done(None, s3) => StmtParse::Failed(
                        Failure::Syntax(location_of(s3.current), "Expected statement after 'if' condition"@)),
                    StmtParse::Done(Some(t), s3) => match consume_at(inp, s3, TokenKind::Else) {
                        Err(f) => StmtParse::Failed(f),
                        Ok((false, s4)) => StmtParse::Done(StmtModel::If(c, Box::new(t), None, location_of(s4.current)), s4),
                        Ok((true, s4)) => if !smaller(inp, s4, s) {
                            StmtParse::Failed(stalled())
                        } else {
                            match stmt_at(inp, s4) {
                                StmtParse::Failed(f) => StmtParse::Failed(f),
                                StmtParse::Open => StmtParse::Open,
                                StmtParse::Done(e, s5) => StmtParse::Done(StmtModel::If(c, Box::new(t),
                                    match e { Some(e) => Some(Box::new(e)), None => None }, location_of(s5.current)), s5),
                            }
                        },
                    },
                }
            },
        },
    }
}

/// A `while` statement: a condition and a statement.
pub open spec fn while_at(inp: TokenInput, s: Spot) -> StmtParse<StmtModel>
    decreases measure_at(inp, s), 9int,
{
    match expect_at(inp, s, Token::While) {
        Err(f) => StmtParse::Failed(f),
        Ok(s1) => match expr_at(inp, s1, 20) {
            ExprParse::Failed(f) => StmtParse::Failed(f),
            ExprParse::Open => StmtParse::Open,
            ExprParse::Parsed(None, s2) => StmtParse::Failed(
                Failure::Syntax(location_of(s2.current), "Expected condition after 'while'"@)),
            ExprParse::Parsed(Some(c), s2) => if !smaller(inp, s2, s) {
                StmtParse::Failed(stalled())
            } else {
                match stmt_at(inp, s2) {
                    StmtParse::Failed(f) => StmtParse::Failed(f),
                    StmtParse::Open => StmtParse::Open,
                    StmtParse::Done(None, s3) => StmtParse::Failed(
                        Failure::Syntax(location_of(s3.current), "Expected statement after 'while' condition"@)),
                    StmtParse::Done(Some(b), s3) => StmtParse::Done(StmtModel::While(c, Box::new(b), location_of(s3.current)), s3),
                }
            },
        },
    }
}

/// The statements of a block after those in `acc`, up to `}` or a place where no statement
/// starts.
pub open spec fn block_rest_at(inp: TokenInput, s: Spot, acc: Seq<StmtModel>) -> StmtParse<Seq<StmtModel>>
    decreases measure_at(inp, s), 11int,
{
    if kind_of(s.current) == Some(TokenKind::RightBrace) {
        StmtParse::Done(acc, s)
    } else {
        match stmt_at(inp, s) {
            StmtParse::Failed(f) => StmtParse::Failed(f),
            StmtParse::Open => StmtParse::Open,
            StmtParse::Done(None, s1) => StmtParse::Done(acc, s1),
            StmtParse::Done(Some(st), s1) => if smaller(inp, s1, s) {
                block_rest_at(inp, s1, acc.push(st))
            } else {
                StmtParse::Failed(stalled())
            },
        }
    }
}

/// A block statement: `{`, statements and `}`.
pub open spec fn block_at(inp: TokenInput, s: Spot) -> StmtParse<StmtModel>
    decreases measure_at(inp, s), 9int,
{
    match expect_at(inp, s, Token::LeftBrace) {
        Err(f) => StmtParse::Failed(f),
        Ok(s1) => if !smaller(inp, s1, s) {
            StmtParse::Failed(stalled())
        } else {
            match block_rest_at(inp, s1, Seq::empty()) {
                StmtParse::Failed(f) => StmtParse::Failed(f),
                StmtParse::Open => StmtParse::Open,
                StmtParse::Done(ss, s2) => match expect_at(inp, s2, Token::RightBrace) {
                    Err(f) => StmtParse::Failed(f),
                    Ok(s3) => StmtParse::Done(StmtModel::Block(ss, location_of(s3.current)), s3),
                },
            }
        },
    }
}

/// A `break` or `continue` statement opened by `keyword`: an optional label, then `;`; the
/// label and the location after it.
pub open spec fn jump_at(inp: TokenInput, s: Spot, keyword: Token) -> Parsed<(Option<Seq<char>>, Location)> {
    match expect_at(inp, s, keyword) {
        Err(f) => Parsed::Failed(f),
        Ok(s1) => {
            let label = match cur_identifier_at(s1) {
                Some(l) => if read_fails_at(inp, s1) {
                    Parsed::Failed(lexical_failure(inp))
                } else {
                    Parsed::Done(Some(l), read_at(inp, s1))
                },
                None => Parsed::Done(None, s1),
            };
            match label {
                Parsed::Failed(f) => Parsed::Failed(f),
                Parsed::Done(l, s2) => match expect_at(inp, s2, Token::Semicolon) {
                    Err(f) => Parsed::Failed(f),
                    Ok(s3) => Parsed::Done((l, location_of(s3.current)), s3),
                },
            }
        },
    }
}

/// The text of an optional name.
pub open spec fn opt_text(n: Option<String>) -> Option<Seq<char>> {
    match n {
        Some(n) => Some(n@),
        None => None,
    }
}

/// The names exported in braces after those in `acc`, separated by commas.
pub open spec fn export_list_at(inp: TokenInput, s: Spot, acc: Seq<Seq<char>>) -> Parsed<Seq<Seq<char>>>
    decreases measure_at(inp, s),
{
    match cur_identifier_at(s) {
        None => Parsed::Done(acc, s),
        Some(n) => if read_fails_at(inp, s) {
            Parsed::Failed(lexical_failure(inp))
        } else {
            match consume_at(inp, read_at(inp, s), TokenKind::Comma) {
                Err(f) => Parsed::Failed(f),
                Ok((false, s2)) => Parsed::Done(acc.push(n), s2),
                Ok((true, s2)) => if smaller(inp, s2, s) {
                    export_list_at(inp, s2, acc.push(n))
                } else {
                    Parsed::Failed(stalled())
                },
            }
        },
    }
}

/// An export statement: `export` and names in braces, or one name; the names and the location
/// after them.
pub open spec fn export_at(inp: TokenInput, s: Spot) -> Parsed<(Seq<Seq<char>>, Location)> {
    match expect_at(inp, s, Token::Export) {
        Err(f) => Parsed::Failed(f),
        Ok(s1) => {
            let names = match consume_at(inp, s1, TokenKind::LeftBrace) {
                Err(f) => Parsed::Failed(f),
                Ok((true, s2)) => export_close(inp, export_list_at(inp, s2, Seq::empty())),
                Ok((false, s2)) => match cur_identifier_at(s2) {
                    Some(n) => if read_fails_at(inp, s2) {
                        Parsed::Failed(lexical_failure(inp))
                    } else {
                        Parsed::Done(seq![n], read_at(inp, s2))
                    },
                    None => Parsed::Failed(Failure::Syntax(location_of(s2.current), "Expected export items"@)),
                },
            };
            match names {
                Parsed::Failed(f) => Parsed::Failed(f),
                Parsed::Done(ns, s3) => Parsed::Done((ns, location_of(s3.current)), s3),
            }
        },
    }
}

/// Exported names read as `o`, closed by `}`.
pub open spec fn export_close(inp: TokenInput, o: Parsed<Seq<Seq<char>>>) -> Parsed<Seq<Seq<char>>> {
    match o {
        Parsed::Failed(f) => Parsed::Failed(f),
        Parsed::Done(ns, s) => match expect_at(inp, s, Token::RightBrace) {
            Err(f) => Parsed::Failed(f),
            Ok(s1) => Parsed::Done(ns, s1),
        },
    }
}

/// The keywords that open a statement of their own.
pub open spec fn is_statement_keyword(k: TokenKind) -> bool {
    k == TokenKind::Var || k == TokenKind::Const || k == TokenKind::If || k == TokenKind::For
        || k == TokenKind::While || k == TokenKind::Match || k == TokenKind::Return || k == TokenKind::Break
        || k == TokenKind::Continue || k == TokenKind::Try || k == TokenKind::Throw || k == TokenKind::Select
        || k == TokenKind::Go || k == TokenKind::Export || k == TokenKind::LeftBrace
}

/// The statement a keyword opens is of the variant that keyword names.
pub open spec fn opens(k: TokenKind, s: Statement) -> bool {
    match k {
        TokenKind::Var => s is VariableDecl,
        TokenKind::Const => s is ConstantDecl,
        TokenKind::If => s is If,
        TokenKind::For => s is For,
        TokenKind::While => s is While,
        TokenKind::Match => s is Match,
        TokenKind::Return => s is Return,
        TokenKind::Break => s is Break,
        TokenKind::Continue => s is Continue,
        TokenKind::Try => s is Try,
        TokenKind::Throw => s is Throw,
        TokenKind::Select => s is Select,
        TokenKind::Go => s is Go,
        TokenKind::Export => s is Export,
        TokenKind::LeftBrace => s is Block,
        _ => s is Expression,
    }
}

/// A statement can start with the current token.
pub open spec fn cur_starts_statement(p: Parser) -> bool {
    match p.cur_kind() {
        Some(k) => is_statement_keyword(k) || starts_expression(k),
        None => false,
    }
}

/// The current token is a keyword that opens a statement of its own.
pub open spec fn cur_is_statement_keyword(p: Parser) -> bool {
    match p.cur_kind() {
        Some(k) => is_statement_keyword(k),
        None => false,
    }
}

/// The statement `s` is of the variant the current token opens.
pub open spec fn opened_by(p: Parser, s: Statement) -> bool {
    match p.cur_kind() {
        Some(k) => opens(k, s),
        None => false,
    }
}

/// Parse a statement
pub fn parse_statement(parser: &mut Parser) -> (res: Result<Option<Statement>>)
    requires
        old(parser).wf(),
    ensures
        advanced(*old(parser), *final(parser)),
        res matches Ok(Some(_)) ==> final(parser).measure() < old(parser).measure(),
        !cur_starts_statement(*old(parser)) ==> (res matches Ok(None) && *final(parser) == *old(parser)),
        cur_is_statement_keyword(*old(parser)) && res is Ok
            ==> (res matches Ok(Some(s)) && opened_by(*old(parser), s)),
        res matches Ok(Some(s)) ==> opened_by(*old(parser), s),
        old(parser).cur_kind() == Some(TokenKind::Var) ==> gives_stmt(res, *final(parser),
            var_decl_at(old(parser).input(), old(parser).spot()),
            |s: Option<Statement>| match s {
                Some(Statement::VariableDecl(v)) => (v.name@, opt_type_model(v.var_type), opt_expr_model(v.initializer), v.location),
                _ => arbitrary(),
            }),
        old(parser).cur_kind() == Some(TokenKind::Return) ==> gives_stmt(res, *final(parser),
            return_at(old(parser).input(), old(parser).spot()),
            |s: Option<Statement>| match s {
                Some(Statement::Return(r)) => (opt_expr_model(r.value), r.location),
                _ => arbitrary(),
            }),
        old(parser).cur_kind() == Some(TokenKind::Throw) ==> gives_stmt(res, *final(parser),
            throw_at(old(parser).input(), old(parser).spot()),
            |s: Option<Statement>| match s {
                Some(Statement::Throw(t)) => (t.exception.model(), t.location),
                _ => arbitrary(),
            }),
        old(parser).cur_kind() == Some(TokenKind::Go) ==> gives_stmt(res, *final(parser),
            go_at(old(parser).input(), old(parser).spot()),
            |s: Option<Statement>| match s {
                Some(Statement::Go(g)) => (Expression::Call(g.call).model(), g.location),
                _ => arbitrary(),
            }),
        old(parser).cur() is Some && !cur_is_statement_keyword(*old(parser)) ==> gives_stmt(res, *final(parser),
            expr_stmt_at(old(parser).input(), old(parser).spot()),
            |s: Option<Statement>| match s {
                Some(Statement::Expression(e)) => Some(e.model()),
                None => None,
                _ => arbitrary(),
            }),
        old(parser).cur_kind() == Some(TokenKind::Break) ==> gives(res, *final(parser),
            jump_at(old(parser).input(), old(parser).spot(), Token::Break),
            |s: Option<Statement>| match s {
                Some(Statement::Break(b)) => (opt_text(b.label), b.location),
                _ => arbitrary(),
            }),
        old(parser).cur_kind() == Some(TokenKind::Continue) ==> gives(res, *final(parser),
            jump_at(old(parser).input(), old(parser).spot(), Token::Continue),
            |s: Option<Statement>| match s {
                Some(Statement::Continue(c)) => (opt_text(c.label), c.location),
                _ => arbitrary(),
            }),
        old(parser).cur_kind() == Some(TokenKind::Export) ==> gives(res, *final(parser),
            export_at(old(parser).input(), old(parser).spot()),
            |s: Option<Statement>| match s {
                Some(Statement::Export(e)) => (exported_names(e.items@), e.location),
                _ => arbitrary(),
            }),
        gives_stmt(res, *final(parser), stmt_at(old(parser).input(), old(parser).spot()), |s: Option<Statement>| opt_stmt_model(s)),
    decreases old(parser).measure(), 10int,
{
    let kind = match parser.current_kind() {
        Some(k) => k,
        None => {
            return Ok(None);
        },
    };
    match kind {
        TokenKind::Var => {
            let decl = parse_variable_declaration(parser)?;
            Ok(Some(Statement::VariableDecl(VariableDeclStmt {
                name: decl.name,
                var_type: decl.var_type,
                initializer: decl.initializer,
                mutable: decl.mutable,
                location: decl.location,
            })))
        },
        TokenKind::Const => {
            let decl = parse_constant_declaration(parser)?;
            Ok(Some(Statement::ConstantDecl(ConstantDeclStmt {
                name: decl.name,
                const_type: decl.const_type,
                value: decl.value,
                location: decl.location,
            })))
        },
        TokenKind::If => {
            let stmt = parse_if_statement(parser)?;
            Ok(Some(Statement::If(stmt)))
        },
        TokenKind::For => {
            let stmt = parse_for_statement(parser)?;
            Ok(Some(Statement::For(stmt)))
        },
        TokenKind::While => {
            let stmt = parse_while_statement(parser)?;
            Ok(Some(Statement::While(stmt)))
        },
        TokenKind::Match => {
            let stmt = parse_match_statement(parser)?;
            Ok(Some(Statement::Match(stmt)))
        },
        TokenKind::Return => {
            let stmt = parse_return_statement(parser)?;
            Ok(Some(Statement::Return(stmt)))
        },
        TokenKind::Break => {
            let stmt = parse_break_statement(parser)?;
            Ok(Some(Statement::Break(stmt)))
        },
        TokenKind::Continue => {
            let stmt = parse_continue_statement(parser)?;
            Ok(Some(Statement::Continue(stmt)))
        },
        TokenKind::Try => {
            let stmt = parse_try_statement(parser)?;
            Ok(Some(Statement::Try(stmt)))
        },
        TokenKind::Throw => {
            let stmt = parse_throw_statement(parser)?;
            Ok(Some(Statement::Throw(stmt)))
        },
        TokenKind::Select => {
            let stmt = parse_select_statement(parser)?;
            Ok(Some(Statement::Select(Box::new(stmt))))
        },
        TokenKind::Go => {
            let stmt = parse_go_statement(parser)?;
            Ok(Some(Statement::Go(stmt)))
        },
        TokenKind::Export => {
            let stmt = parse_export_statement(parser)?;
            Ok(Some(Statement::Export(stmt)))
        },
        TokenKind::LeftBrace => {
            let stmt = parse_block_statement(parser)?;
            Ok(Some(Statement::Block(stmt)))
        },
        _ => parse_expression_statement(parser),
    }
}

/// An expression statement: an expression, then `;` if it is there; none where no expression
/// starts.
fn parse_expression_statement(parser: &mut Parser) -> (res: Result<Option<Statement>>)
    requires
        old(parser).wf(),
    ensures
        advanced(*old(parser), *final(parser)),
        res matches Ok(Some(_)) ==> final(parser).measure() < old(parser).measure(),
        !cur_starts_expression(*old(parser)) ==> (res matches Ok(None) && *final(parser) == *old(parser)),
        res matches Ok(Some(s)) ==> s is Expression,
        gives_stmt(res, *final(parser), expr_stmt_at(old(parser).input(), old(parser).spot()),
            |s: Option<Statement>| match s {
                Some(Statement::Expression(e)) => Some(e.model()),
                None => None,
                _ => arbitrary(),
            }),
    decreases old(parser).measure(), 9int,
{
    match parse_expression(parser)? {
        Some(expr) => {
            parser.consume(&Token::Semicolon)?;
            Ok(Some(Statement::Expression(expr)))
        },
        None => Ok(None),
    }
}

/// Parse variable declaration statement (the `;` after it is optional)
fn parse_variable_declaration(parser: &mut Parser) -> (res: Result<VariableDecl>)
    requires
        old(parser).wf(),
    ensures
        advanced(*old(parser), *final(parser)),
        res is Ok ==> final(parser).measure() < old(parser).measure(),
        gives_stmt(res, *final(parser), var_decl_at(old(parser).input(), old(parser).spot()),
            |v: VariableDecl| (v.name@, opt_type_model(v.var_type), opt_expr_model(v.initializer), v.location)),
        res matches Ok(v) ==> v.mutable,
{
    parser.expect(&Token::Var)?;
    match cur_name(parser) {
        Some(name) => {
            parser.advance()?;
            let var_type = if parser.consume(&Token::Colon)? {
                parse_type(parser)?
            } else {
                None
            };
            let initializer = if parser.consume(&Token::Assign)? {
                parse_expression(parser)?
            } else {
                None
            };
            parser.consume(&Token::Semicolon)?;
            let location = parser.current_location();
            Ok(VariableDecl { name, var_type, initializer, mutable: true, location })
        },
        None => {
            let loc = parser.current_location();
            Err(CompilerError::syntax(loc.line, loc.column, "Expected variable name after 'var'"))
        },
    }
}

/// Parse constant declaration statement
fn parse_constant_declaration(parser: &mut Parser) -> (res: Result<ConstantDecl>)
    requires
        old(parser).wf(),
    ensures
        advanced(*old(parser), *final(parser)),
        res is Ok ==> final(parser).measure() < old(parser).measure(),
        gives_stmt(res, *final(parser), const_decl_at(old(parser).input(), old(parser).spot()),
            |c: ConstantDecl| (c.name@, opt_type_model(c.const_type), c.value.model(), c.location)),
{
    parser.expect(&Token::Const)?;
    match cur_name(parser) {
        Some(name) => {
            parser.advance()?;
            let const_type = if parser.consume(&Token::Colon)? {
                parse_type(parser)?
            } else {
                None
            };
            parser.expect(&Token::Assign)?;
            let value = match parse_expression(parser)? {
                Some(v) => v,
                None => {
                    let loc = parser.current_location();
                    return Err(CompilerError::syntax(loc.line, loc.column, "Expected value after '='"));
                },
            };
            parser.expect(&Token::Semicolon)?;
            let location = parser.current_location();
            Ok(ConstantDecl { name, const_type, value, location })
        },
        None => {
            let loc = parser.current_location();
            Err(CompilerError::syntax(loc.line, loc.column, "Expected constant name after 'const'"))
        },
    }
}

/// Parse if statement
pub fn parse_if_statement(parser: &mut Parser) -> (res: Result<IfStmt>)
    requires
        old(parser).wf(),
    ensures
        advanced(*old(parser), *final(parser)),
        res is Ok ==> final(parser).measure() < old(parser).measure(),
        old(parser).cur_kind() != Some(TokenKind::If) ==> res is Err && *final(parser) == *old(parser),
        gives_stmt(res, *final(parser), if_at(old(parser).input(), old(parser).spot()), |i: IfStmt| Statement::If(i).model()),
    decreases old(parser).measure(), 5int,
{
    let ghost inp = parser.input();
    let ghost s0 = parser.spot();
    parser.expect(&Token::If)?;
    let condition = match parse_expression(parser)? {
        Some(c) => c,
        None => {
            let loc = parser.current_location();
            return Err(CompilerError::syntax(loc.line, loc.column, "Expected condition after 'if'"));
        },
    };
    proof {
        assert(smaller(inp, parser.spot(), s0));
    }
    let then_branch = match parse_statement(parser)? {
        Some(s) => s,
        None => {
            let loc = parser.current_location();
            return Err(CompilerError::syntax(loc.line, loc.column, "Expected statement after 'if' condition"));
        },
    };
    let else_branch = if parser.consume(&Token::Else)? {
        proof {
            assert(smaller(inp, parser.spot(), s0));
        }
        parse_statement(parser)?
    } else {
        None
    };
    let else_branch = match else_branch {
        Some(s) => Some(Box::new(s)),
        None => None,
    };
    let location = parser.current_location();
    Ok(IfStmt { condition, then_branch: Box::new(then_branch), else_branch, location })
}

/// Parse for statement
pub fn parse_for_statement(parser: &mut Parser) -> (res: Result<ForStmt>)
    requires
        old(parser).wf(),
    ensures
        advanced(*old(parser), *final(parser)),
        res is Ok ==> final(parser).measure() < old(parser).measure(),
        old(parser).cur_kind() != Some(TokenKind::For) ==> res is Err && *final(parser) == *old(parser),
        gives_stmt(res, *final(parser), for_at(old(parser).input(), old(parser).spot()), |f: ForStmt| Statement::For(f).model()),
    decreases old(parser).measure(), 5int,
{
    let ghost inp = parser.input();
    let ghost s0 = parser.spot();
    parser.expect(&Token::For)?;
    match cur_name(parser) {
        Some(variable) => {
            parser.advance()?;
            parser.expect(&Token::In)?;
            let iterable = match parse_expression(parser)? {
                Some(i) => i,
                None => {
                    let loc = parser.current_location();
                    return Err(CompilerError::syntax(loc.line, loc.column, "Expected iterable after 'in'"));
                },
            };
            proof {
                assert(smaller(inp, parser.spot(), s0));
            }
            let body = if parser.check(&Token::LeftBrace) {
                Statement::Block(parse_block_statement(parser)?)
            } else {
                match parse_statement(parser)? {
                    Some(s) => s,
                    None => {
                        let loc = parser.current_location();
                        return Err(CompilerError::syntax(loc.line, loc.column, "Expected statement after for loop"));
                    },
                }
            };
            let location = parser.current_location();
            Ok(ForStmt { variable, iterable, body: Box::new(body), location })
        },
        None => {
            let loc = parser.current_location();
            Err(CompilerError::syntax(loc.line, loc.column, "Expected variable name after 'for'"))
        },
    }
}

/// Parse while statement
pub fn parse_while_statement(parser: &mut Parser) -> (res: Result<WhileStmt>)
    requires
        old(parser).wf(),
    ensures
        advanced(*old(parser), *final(parser)),
        res is Ok ==> final(parser).measure() < old(parser).measure(),
        old(parser).cur_kind() != Some(TokenKind::While) ==> res is Err && *final(parser) == *old(parser),
        gives_stmt(res, *final(parser), while_at(old(parser).input(), old(parser).spot()), |w: WhileStmt| Statement::While(w).model()),
    decreases old(parser).measure(), 5int,
{
    let ghost inp = parser.input();
    let ghost s0 = parser.spot();
    parser.expect(&Token::While)?;
    let condition = match parse_expression(parser)? {
        Some(c) => c,
        None => {
            let loc = parser.current_location();
            return Err(CompilerError::syntax(loc.line, loc.column, "Expected condition after 'while'"));
        },
    };
    proof {
        assert(smaller(inp, parser.spot(), s0));
    }
    let body = match parse_statement(parser)? {
        Some(s) => s,
        None => {
            let loc = parser.current_location();
            return Err(CompilerError::syntax(loc.line, loc.column, "Expected statement after 'while' condition"));
        },
    };
    let location = parser.current_location();
    Ok(WhileStmt { condition, body: Box::new(body), location })
}

/// Parse match statement
pub fn parse_match_statement(parser: &mut Parser) -> (res: Result<MatchStmt>)
    requires
        old(parser).wf(),
    ensures
        advanced(*old(parser), *final(parser)),
        res is Ok ==> final(parser).measure() < old(parser).measure(),
        old(parser).cur_kind() != Some(TokenKind::Match) ==> res is Err && *final(parser) == *old(parser),
        match expect_at(old(parser).input(), old(parser).spot(), Token::Match) {
            Err(f) => res is Err && fails_with(res->Err_0, f),
            Ok(s1) => if kind_of(s1.current) == Some(TokenKind::LeftBrace) {
                res matches Ok(m) ==> m.expr == Expression::Literal(Literal::Boolean(true))
            } else {
                match expr_at(old(parser).input(), s1, 20) {
                    ExprParse::Failed(f) => res is Err && fails_with(res->Err_0, f),
                    ExprParse::Open => true,
                    ExprParse::Parsed(None, s2) => res is Err
                        && fails_with(res->Err_0, Failure::Syntax(location_of(s2.current), "Expected expression after 'match'"@)),
                    ExprParse::Parsed(Some(e), s2) => res matches Ok(m) ==> m.expr.model() == e,
                }
            },
        },
    decreases old(parser).measure(), 5int,
{
    let ghost inp = parser.input();
    let ghost s0 = parser.spot();
    parser.expect(&Token::Match)?;
    let ghost s1 = parser.spot();
    let expr = if parser.check(&Token::LeftBrace) {
        None
    } else {
        match parse_expression(parser)? {
            Some(e) => Some(e),
            None => {
                let loc = parser.current_location();
                proof {
                    reveal_strlit("Expected expression after 'match'");
                }
                return Err(CompilerError::syntax(loc.line, loc.column, "Expected expression after 'match'"));
            },
        }
    };
    proof {
        assert(expect_at(inp, s0, Token::Match) == Ok::<Spot, Failure>(s1));
    }
    parser.expect(&Token::LeftBrace)?;
    let has_expr = expr.is_some();
    let mut arms: Vec<MatchArmStmt> = Vec::new();
    loop
        invariant
            advanced(*old(parser), *parser),
            parser.measure() < old(parser).measure(),
            old(parser).cur_kind() == Some(TokenKind::Match),
            inp == old(parser).input(),
            s0 == old(parser).spot(),
            expect_at(inp, s0, Token::Match) == Ok::<Spot, Failure>(s1),
            kind_of(s1.current) != Some(TokenKind::LeftBrace) ==> (expr_at(inp, s1, 20) is Open
                || expr_at(inp, s1, 20) matches ExprParse::Parsed(Some(_), _)),
        decreases parser.measure(),
    {
        if parser.check(&Token::RightBrace) {
            break;
        }
        if has_expr {
            let pattern = match parse_pattern(parser)? {
                Some(p) => p,
                None => {
                    break;
                },
            };
            let guard = if parser.consume(&Token::If)? {
                parse_expression(parser)?
            } else {
                None
            };
            parser.expect(&Token::Arrow)?;
            match parse_statement(parser)? {
                Some(body) => {
                    let location = parser.current_location();
                    arms.push(MatchArmStmt { pattern, guard, body, location });
                },
                None => {},
            }
        } else {
            let guard = if parser.check(&Token::LeftParen) {
                parser.advance()?;
                let g = parse_expression(parser)?;
                parser.expect(&Token::RightParen)?;
                g
            } else if parser.check(&Token::Underscore) {
                parser.advance()?;
                None
            } else {
                parse_expression(parser)?
            };
            parser.expect(&Token::Arrow)?;
            match parse_statement(parser)? {
                Some(body) => {
                    let location = parser.current_location();
                    arms.push(MatchArmStmt { pattern: Pattern::Wildcard, guard, body, location });
                },
                None => {},
            }
        }
        if parser.consume(&Token::Comma)? {
            continue;
        }
        if parser.check(&Token::RightBrace) {
            break;
        }
        match parser.current_kind() {
            Some(TokenKind::Integer) | Some(TokenKind::Float) | Some(TokenKind::String)
            | Some(TokenKind::Identifier) | Some(TokenKind::Underscore) | Some(TokenKind::LeftParen) => {
                continue;
            },
            _ => {
                break;
            },
        }
    }
    parser.expect(&Token::RightBrace)?;
    let subject = match expr {
        Some(e) => e,
        None => Expression::Literal(Literal::Boolean(true)),
    };
    let location = parser.current_location();
    Ok(MatchStmt { expr: subject, arms, location })
}

/// Parse return statement (the `;` after it is optional)
pub fn parse_return_statement(parser: &mut Parser) -> (res: Result<ReturnStmt>)
    requires
        old(parser).wf(),
    ensures
        advanced(*old(parser), *final(parser)),
        res is Ok ==> final(parser).measure() < old(parser).measure(),
        old(parser).cur_kind() != Some(TokenKind::Return) ==> res is Err && *final(parser) == *old(parser),
        gives_stmt(res, *final(parser), return_at(old(parser).input(), old(parser).spot()),
            |r: ReturnStmt| (opt_expr_model(r.value), r.location)),
    decreases old(parser).measure(), 5int,
{
    parser.expect(&Token::Return)?;
    let value = if !parser.check(&Token::Semicolon) {
        parse_expression(parser)?
    } else {
        None
    };
    parser.consume(&Token::Semicolon)?;
    let location = parser.current_location();
    Ok(ReturnStmt { value, location })
}

/// Parse break statement
pub fn parse_break_statement(parser: &mut Parser) -> (res: Result<BreakStmt>)
    requires
        old(parser).wf(),
    ensures
        advanced(*old(parser), *final(parser)),
        res is Ok ==> final(parser).measure() < old(parser).measure(),
        old(parser).cur_kind() != Some(TokenKind::Break) ==> res is Err && *final(parser) == *old(parser),
        gives(res, *final(parser), jump_at(old(parser).input(), old(parser).spot(), Token::Break),
            |b: BreakStmt| (opt_text(b.label), b.location)),
    decreases old(parser).measure(), 5int,
{
    parser.expect(&Token::Break)?;
    let label = match cur_name(parser) {
        Some(label) => {
            parser.advance()?;
            Some(label)
        },
        None => None,
    };
    parser.expect(&Token::Semicolon)?;
    let location = parser.current_location();
    Ok(BreakStmt { label, location })
}

/// Parse continue statement
pub fn parse_continue_statement(parser: &mut Parser) -> (res: Result<ContinueStmt>)
    requires
        old(parser).wf(),
    ensures
        advanced(*old(parser), *final(parser)),
        res is Ok ==> final(parser).measure() < old(parser).measure(),
        old(parser).cur_kind() != Some(TokenKind::Continue) ==> res is Err && *final(parser) == *old(parser),
        gives(res, *final(parser), jump_at(old(parser).input(), old(parser).spot(), Token::Continue),
            |c: ContinueStmt| (opt_text(c.label), c.location)),
    decreases old(parser).measure(), 5int,
{
    parser.expect(&Token::Continue)?;
    let label = match cur_name(parser) {
        Some(label) => {
            parser.advance()?;
            Some(label)
        },
        None => None,
    };
    parser.expect(&Token::Semicolon)?;
    let location = parser.current_location();
    Ok(ContinueStmt { label, location })
}

/// Parse try statement
#[verifier::rlimit(100)]
pub fn parse_try_statement(parser: &mut Parser) -> (res: Result<TryStmt>)
    requires
        old(parser).wf(),
    ensures
        advanced(*old(parser), *final(parser)),
        res is Ok ==> final(parser).measure() < old(parser).measure(),
        old(parser).cur_kind() != Some(TokenKind::Try) ==> res is Err && *final(parser) == *old(parser),
        gives_stmt(res, *final(parser), try_at(old(parser).input(), old(parser).spot()), |t: TryStmt| Statement::Try(t).model()),
    decreases old(parser).measure(), 5int,
{
    let ghost inp = parser.input();
    let ghost s0 = parser.spot();
    parser.expect(&Token::Try)?;
    let try_block = match parse_statement(parser)? {
        Some(s) => s,
        None => {
            let loc = parser.current_location();
            return Err(CompilerError::syntax(loc.line, loc.column, "Expected statement after 'try'"));
        },
    };
    let ghost s2 = parser.spot();
    proof {
        assert(smaller(inp, s2, s0));
    }
    let ghost goal = handlers_at(inp, s2, Seq::empty());
    proof {
        assert(try_at(inp, s0) is Open || try_at(inp, s0) == try_result(try_block.model(), goal));
    }
    let mut catch_handlers: Vec<CatchHandlerStmt> = Vec::new();
    proof {
        assert(handler_models(catch_handlers@) =~= Seq::<(TypeModel, Seq<char>, StmtModel, Location)>::empty());
    }
    loop
        invariant_except_break
            goal is Open || handlers_at(inp, parser.spot(), handler_models(catch_handlers@)) == goal,
        invariant
            advanced(*old(parser), *parser),
            parser.measure() < old(parser).measure(),
            old(parser).cur_kind() == Some(TokenKind::Try),
            parser.input() == inp,
            inp == old(parser).input(),
            goal == handlers_at(inp, s2, Seq::empty()),
            s0 == old(parser).spot(),
            try_at(inp, s0) is Open || try_at(inp, s0) == try_result(try_block.model(), goal),
        ensures
            advanced(*old(parser), *parser),
            parser.measure() < old(parser).measure(),
            parser.input() == inp,
            goal is Open || goal == StmtParse::Done(handler_models(catch_handlers@), parser.spot()),
        decreases parser.measure(),
    {
        let ghost sc = parser.spot();
        if !parser.consume(&Token::Catch)? {
            break;
        }
        let ghost s1 = parser.spot();
        proof {
            assert(smaller(inp, s1, sc));
        }
        match cur_name(parser) {
            Some(variable) => {
                parser.advance()?;
                parser.expect(&Token::Colon)?;
                let exception_type = match parse_type(parser)? {
                    Some(t) => t,
                    None => {
                        let loc = parser.current_location();
                        return Err(CompilerError::syntax(loc.line, loc.column, "Expected exception type after ':'"));
                    },
                };
                proof {
                    assert(smaller(inp, parser.spot(), sc));
                }
                match parse_statement(parser)? {
                    Some(body) => {
                        let location = parser.current_location();
                        let h = CatchHandlerStmt { exception_type, variable, body, location };
                        proof {
                            lemma_handler_models_push(catch_handlers@, h);
                        }
                        catch_handlers.push(h);
                    },
                    None => {},
                }
            },
            None => {},
        }
    }
    let location = parser.current_location();
    Ok(TryStmt { try_block: Box::new(try_block), catch_handlers, location })
}

/// Parse throw statement
pub fn parse_throw_statement(parser: &mut Parser) -> (res: Result<ThrowStmt>)
    requires
        old(parser).wf(),
    ensures
        advanced(*old(parser), *final(parser)),
        res is Ok ==> final(parser).measure() < old(parser).measure(),
        old(parser).cur_kind() != Some(TokenKind::Throw) ==> res is Err && *final(parser) == *old(parser),
        gives_stmt(res, *final(parser), throw_at(old(parser).input(), old(parser).spot()),
            |t: ThrowStmt| (t.exception.model(), t.location)),
    decreases old(parser).measure(), 5int,
{
    parser.expect(&Token::Throw)?;
    let exception = match parse_expression(parser)? {
        Some(e) => e,
        None => {
            let loc = parser.current_location();
            return Err(CompilerError::syntax(loc.line, loc.column, "Expected exception after 'throw'"));
        },
    };
    parser.expect(&Token::Semicolon)?;
    let location = parser.current_location();
    Ok(ThrowStmt { exception, location })
}

/// Parse select statement
#[verifier::rlimit(100)]
pub fn parse_select_statement(parser: &mut Parser) -> (res: Result<SelectStmt>)
    requires
        old(parser).wf(),
    ensures
        advanced(*old(parser), *final(parser)),
        res is Ok ==> final(parser).measure() < old(parser).measure(),
        old(parser).cur_kind() != Some(TokenKind::Select) ==> res is Err && *final(parser) == *old(parser),
        gives_stmt(res, *final(parser), select_at(old(parser).input(), old(parser).spot()),
            |t: SelectStmt| Statement::Select(Box::new(t)).model()),
    decreases old(parser).measure(), 5int,
{
    let ghost inp = parser.input();
    let ghost s0 = parser.spot();
    parser.expect(&Token::Select)?;
    parser.expect(&Token::LeftBrace)?;
    let ghost s2 = parser.spot();
    proof {
        assert(smaller(inp, s2, s0));
    }
    let ghost goal = cases_at(inp, s2, Seq::empty());
    let mut cases: Vec<SelectCaseStmt> = Vec::new();
    let mut default_case: Option<Statement> = None;
    proof {
        assert(case_models(cases@) =~= Seq::<(ExprModel, StmtModel, Location)>::empty());
        assert(select_at(inp, s0) == select_close(inp, goal));
    }
    loop
        invariant_except_break
            goal is Open || cases_at(inp, parser.spot(), case_models(cases@)) == goal,
            default_case is None,
        invariant
            advanced(*old(parser), *parser),
            parser.measure() < old(parser).measure(),
            old(parser).cur_kind() == Some(TokenKind::Select),
            parser.input() == inp,
            inp == old(parser).input(),
            goal == cases_at(inp, s2, Seq::empty()),
            s0 == old(parser).spot(),
            select_at(inp, s0) == select_close(inp, goal),
        ensures
            advanced(*old(parser), *parser),
            parser.measure() < old(parser).measure(),
            parser.input() == inp,
            goal is Open || goal == StmtParse::Done((case_models(cases@), opt_stmt_model(default_case)), parser.spot()),
        decreases parser.measure(),
    {
        if parser.check(&Token::RightBrace) {
            break;
        }
        let ghost sc = parser.spot();
        if parser.consume(&Token::Default)? {
            parser.expect(&Token::Arrow)?;
            proof {
                assert(smaller(inp, parser.spot(), sc));
            }
            default_case = parse_statement(parser)?;
            break;
        } else {
            let channel = match parse_expression(parser)? {
                Some(c) => c,
                None => {
                    break;
                },
            };
            parser.expect(&Token::Arrow)?;
            proof {
                assert(smaller(inp, parser.spot(), sc));
            }
            match parse_statement(parser)? {
                Some(body) => {
                    let location = parser.current_location();
                    let c = SelectCaseStmt { channel, body, location };
                    proof {
                        lemma_case_models_push(cases@, c);
                    }
                    cases.push(c);
                },
                None => {},
            }
        }
        if !parser.consume(&Token::Comma)? {
            break;
        }
    }
    parser.expect(&Token::RightBrace)?;
    let default_case = match default_case {
        Some(d) => Some(Box::new(d)),
        None => None,
    };
    let location = parser.current_location();
    Ok(SelectStmt { cases, default_case, location })
}

/// Parse go statement
pub fn parse_go_statement(parser: &mut Parser) -> (res: Result<GoStmt>)
    requires
        old(parser).wf(),
    ensures
        advanced(*old(parser), *final(parser)),
        res is Ok ==> final(parser).measure() < old(parser).measure(),
        old(parser).cur_kind() != Some(TokenKind::Go) ==> res is Err && *final(parser) == *old(parser),
        gives_stmt(res, *final(parser), go_at(old(parser).input(), old(parser).spot()),
            |g: GoStmt| (Expression::Call(g.call).model(), g.location)),
    decreases old(parser).measure(), 5int,
{
    parser.expect(&Token::Go)?;
    match parse_expression(parser)? {
        Some(Expression::Call(call)) => {
            parser.expect(&Token::Semicolon)?;
            let location = parser.current_location();
            Ok(GoStmt { call, location })
        },
        _ => {
            let loc = parser.current_location();
            Err(CompilerError::syntax(loc.line, loc.column, "Expected function call after 'go'"))
        },
    }
}

/// Parse block statement
pub fn parse_block_statement(parser: &mut Parser) -> (res: Result<BlockStmt>)
    requires
        old(parser).wf(),
    ensures
        advanced(*old(parser), *final(parser)),
        res is Ok ==> final(parser).measure() < old(parser).measure(),
        old(parser).cur_kind() != Some(TokenKind::LeftBrace) ==> res is Err && *final(parser) == *old(parser),
        gives_stmt(res, *final(parser), block_at(old(parser).input(), old(parser).spot()), |b: BlockStmt| Statement::Block(b).model()),
    decreases old(parser).measure(), 5int,
{
    let ghost inp = parser.input();
    let ghost s0 = parser.spot();
    parser.expect(&Token::LeftBrace)?;
    let ghost s1 = parser.spot();
    proof {
        assert(smaller(inp, s1, s0));
    }
    let ghost goal = block_rest_at(inp, s1, Seq::empty());
    let mut statements: Vec<Statement> = Vec::new();
    proof {
        lemma_stmt_models_push(statements@, Statement::Empty);
    }
    loop
        invariant_except_break
            goal is Open || block_rest_at(inp, parser.spot(), stmt_models(statements@)) == goal,
        invariant
            advanced(*old(parser), *parser),
            parser.measure() < old(parser).measure(),
            old(parser).cur_kind() == Some(TokenKind::LeftBrace),
            parser.input() == inp,
            inp == old(parser).input(),
            s0 == old(parser).spot(),
            goal == block_rest_at(inp, s1, Seq::empty()),
            expect_at(inp, s0, Token::LeftBrace) == Ok::<Spot, Failure>(s1),
            smaller(inp, s1, s0),
        ensures
            advanced(*old(parser), *parser),
            parser.measure() < old(parser).measure(),
            parser.input() == inp,
            goal is Open || goal == StmtParse::Done(stmt_models(statements@), parser.spot()),
        decreases parser.measure(),
    {
        if parser.check(&Token::RightBrace) {
            break;
        }
        let ghost sb = parser.spot();
        match parse_statement(parser)? {
            Some(stmt) => {
                proof {
                    lemma_stmt_models_push(statements@, stmt);
                    assert(smaller(inp, parser.spot(), sb));
                }
                statements.push(stmt);
            },
            None => {
                break;
            },
        }
    }
    parser.expect(&Token::RightBrace)?;
    let location = parser.current_location();
    Ok(BlockStmt { statements, location })
}

/// Parse export statement
pub fn parse_export_statement(parser: &mut Parser) -> (res: Result<ExportStmt>)
    requires
        old(parser).wf(),
    ensures
        advanced(*old(parser), *final(parser)),
        res is Ok ==> final(parser).measure() < old(parser).measure(),
        old(parser).cur_kind() != Some(TokenKind::Export) ==> res is Err && *final(parser) == *old(parser),
        gives(res, *final(parser), export_at(old(parser).input(), old(parser).spot()),
            |e: ExportStmt| (exported_names(e.items@), e.location)),
{
    let ghost inp = parser.input();
    let ghost s0 = parser.spot();
    parser.expect(&Token::Export)?;
    let mut items: Vec<ExportItem> = Vec::new();
    proof {
        assert(exported_names(items@) =~= Seq::<Seq<char>>::empty());
    }
    if parser.consume(&Token::LeftBrace)? {
        let ghost goal = export_list_at(inp, parser.spot(), Seq::empty());
        proof {
            assert(export_at(inp, s0) == match export_close(inp, goal) {
                Parsed::Failed(f) => Parsed::Failed(f),
                Parsed::Done(ns, s3) => Parsed::Done((ns, location_of(s3.current)), s3),
            });
        }
        loop
            invariant_except_break
                export_list_at(inp, parser.spot(), exported_names(items@)) == goal,
            invariant
                advanced(*old(parser), *parser),
                parser.input() == inp,
                inp == old(parser).input(),
                s0 == old(parser).spot(),
                parser.measure() < old(parser).measure(),
                old(parser).cur_kind() == Some(TokenKind::Export),
                export_at(inp, s0) == match export_close(inp, goal) {
                    Parsed::Failed(f) => Parsed::Failed(f),
                    Parsed::Done(ns, s3) => Parsed::Done((ns, location_of(s3.current)), s3),
                },
            ensures
                advanced(*old(parser), *parser),
                parser.measure() < old(parser).measure(),
                goal == Parsed::<Seq<Seq<char>>>::Done(exported_names(items@), parser.spot()),
                export_at(inp, s0) == match export_close(inp, goal) {
                    Parsed::Failed(f) => Parsed::Failed(f),
                    Parsed::Done(ns, s3) => Parsed::Done((ns, location_of(s3.current)), s3),
                },
            decreases parser.measure(),
        {
            let ghost sb = parser.spot();
            match cur_name(parser) {
                Some(name) => {
                    parser.advance()?;
                    proof {
                        assert(exported_names(items@.push(ExportItem::Function(name)))
                            =~= exported_names(items@).push(name@));
                    }
                    items.push(ExportItem::Function(name));
                    if !parser.consume(&Token::Comma)? {
                        break;
                    }
                    proof {
                        assert(smaller(inp, parser.spot(), sb));
                    }
                },
                None => {
                    break;
                },
            }
        }
        parser.expect(&Token::RightBrace)?;
    } else {
        match cur_name(parser) {
            Some(name) => {
                parser.advance()?;
                proof {
                    assert(exported_names(items@.push(ExportItem::Function(name))) =~= seq![name@]);
                }
                items.push(ExportItem::Function(name));
            },
            None => {
                let loc = parser.current_location();
                return Err(CompilerError::syntax(loc.line, loc.column, "Expected export items"));
            },
        }
    }
    let location = parser.current_location();
    Ok(ExportStmt { items, location })
}

/// Parse pattern for match statements
fn parse_pattern(parser: &mut Parser) -> (res: Result<Option<Pattern>>)
    requires
        old(parser).wf(),
    ensures
        advanced(*old(parser), *final(parser)),
        res matches Ok(Some(_)) ==> final(parser).measure() < old(parser).measure(),
        gives_pattern(res, *final(parser), pattern_or_at(old(parser).input(), old(parser).spot())),
{
    parse_pattern_or(parser)
}

} // verus!
