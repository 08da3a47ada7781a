//! Expression parser for Nature language
use vstd::prelude::*;
use crate::ast::expr::{ExprModel, expr_models, entry_models, field_init_models, lemma_expr_models_push, lemma_entry_models_push, lemma_field_init_models_push, Expression, Literal, CallExpr, MethodCallExpr, BinaryExpr, BinaryOp, UnaryExpr, UnaryOp, ConditionalExpr, ArrayExpr, MapExpr, MapEntry, StructExpr, FieldInit, FieldAccessExpr, IndexAccessExpr, LambdaExpr, MatchExpr, MatchArm, Pattern, PatternModel, pattern_models, lemma_pattern_models_len, lemma_pattern_models_push, lemma_pattern_models_single, IfExpr, ForExpr, WhileExpr, TryExpr, CatchHandler, SelectExpr, SelectCase, GoExpr, NewExpr};
use crate::ast::types::{Type, StructType, Parameter, TypeModel, models};
use crate::error::{CompilerError, Location, Result};
use crate::lexer::token::{Token, TokenKind};
use crate::text::concat3;
use super::{Parser, advanced, stepped, next_kind, next_read_fails, cur_identifier, kind_of, location_of, TokenInput, Spot, Failure,
    read_fails_at, read_at, measure_at, smaller, lexical_failure, stalled, fails_with, consume_at, expect_at};
use super::decl_parser::cur_identifier_at;
use super::type_parser::parse_type;
use super::decl_parser::{Parsed, ParamModel, param_models, lemma_param_models_push, opt_type_model};
use super::type_parser::{type_at, TypeParse};

verus! {

/// The literal a token stands for, if it is a literal.
pub open spec fn literal_of(t: Token) -> Option<Literal> {
    match t {
        Token::Integer(n) => Some(Literal::Integer(n)),
        Token::Float(s) => Some(Literal::Float(s)),
        Token::String(s) => Some(Literal::String(s)),
        Token::Char(c) => Some(Literal::Char(c)),
        Token::True => Some(Literal::Boolean(true)),
        Token::False => Some(Literal::Boolean(false)),
        Token::Null => Some(Literal::Null),
        _ => None,
    }
}

/// The literal the current token stands for, if it is a literal.
pub open spec fn cur_literal(p: Parser) -> Option<Literal> {
    match p.cur() {
        Some(t) => literal_of(t.token),
        None => None,
    }
}

/// The tokens a primary expression can start with.
pub open spec fn starts_primary(k: TokenKind) -> bool {
    ||| k == TokenKind::Integer || k == TokenKind::Float || k == TokenKind::String || k == TokenKind::Char
    ||| k == TokenKind::True || k == TokenKind::False || k == TokenKind::Null || k == TokenKind::Identifier
    ||| k == TokenKind::LeftParen || k == TokenKind::LeftBracket || k == TokenKind::MapKw
    ||| k == TokenKind::Struct || k == TokenKind::Fn || k == TokenKind::Match || k == TokenKind::If
    ||| k == TokenKind::For || k == TokenKind::While || k == TokenKind::Try || k == TokenKind::Select
    ||| k == TokenKind::Go || k == TokenKind::New
}

/// The prefix operators.
pub open spec fn is_unary_operator(k: TokenKind) -> bool {
    k == TokenKind::Not || k == TokenKind::Tilde || k == TokenKind::Minus || k == TokenKind::Plus
        || k == TokenKind::Star || k == TokenKind::Ampersand
}

/// The tokens an expression can start with.
pub open spec fn starts_expression(k: TokenKind) -> bool {
    starts_primary(k) || is_unary_operator(k)
}

/// A primary expression can start with the current token.
pub open spec fn cur_starts_primary(p: Parser) -> bool {
    match p.cur_kind() {
        Some(k) => starts_primary(k),
        None => false,
    }
}

/// An expression can start with the current token.
pub open spec fn cur_starts_expression(p: Parser) -> bool {
    match p.cur_kind() {
        Some(k) => starts_expression(k),
        None => false,
    }
}

/// The assignment operators, with the operation each stands for.
pub open spec fn assign_op(k: TokenKind) -> Option<BinaryOp> {
    match k {
        TokenKind::Assign => Some(BinaryOp::Assign),
        TokenKind::PlusAssign => Some(BinaryOp::AddAssign),
        TokenKind::MinusAssign => Some(BinaryOp::SubAssign),
        TokenKind::StarAssign => Some(BinaryOp::MulAssign),
        TokenKind::SlashAssign => Some(BinaryOp::DivAssign),
        TokenKind::PercentAssign => Some(BinaryOp::ModAssign),
        TokenKind::AmpersandAssign => Some(BinaryOp::BitAndAssign),
        TokenKind::PipeAssign => Some(BinaryOp::BitOrAssign),
        TokenKind::CaretAssign => Some(BinaryOp::BitXorAssign),
        TokenKind::LeftShiftAssign => Some(BinaryOp::LeftShiftAssign),
        TokenKind::RightShiftAssign => Some(BinaryOp::RightShiftAssign),
        _ => None,
    }
}

/// A token of kind `k`, after a complete operand, makes the expression parsed at precedence
/// `level` go on; the levels count up from primary expressions (5) to whole expressions (20).
pub open spec fn binds_after(level: int, k: Option<TokenKind>) -> bool {
    match k {
        None => false,
        Some(k) => {
            ||| level >= 5 && k == TokenKind::Dot
            ||| level >= 6 && (k == TokenKind::ColonColon || k == TokenKind::LeftParen || k == TokenKind::LeftBracket)
            ||| level >= 8 && (k == TokenKind::Star || k == TokenKind::Slash || k == TokenKind::Percent)
            ||| level >= 9 && (k == TokenKind::Plus || k == TokenKind::Minus)
            ||| level >= 10 && (k == TokenKind::LeftShift || k == TokenKind::RightShift)
            ||| level >= 11 && k == TokenKind::Ampersand
            ||| level >= 12 && k == TokenKind::Caret
            ||| level >= 13 && k == TokenKind::Pipe
            ||| level >= 14 && (k == TokenKind::Greater || k == TokenKind::GreaterEqual || k == TokenKind::Less
                || k == TokenKind::LessEqual)
            ||| level >= 15 && (k == TokenKind::Equal || k == TokenKind::NotEqual)
            ||| level >= 16 && k == TokenKind::LogicalAnd
            ||| level >= 17 && k == TokenKind::LogicalOr
            ||| level >= 18 && k == TokenKind::Question
            ||| level >= 19 && assign_op(k) is Some
        },
    }
}

/// The expression the current token makes on its own: a literal, or a variable when an
/// identifier is not followed by `{`.
pub open spec fn simple_primary(p: Parser) -> Option<Expression> {
    match p.cur() {
        Some(t) => match literal_of(t.token) {
            Some(l) => Some(Expression::Literal(l)),
            None => match t.token {
                Token::Identifier(name) => if next_kind(p) == Some(TokenKind::LeftBrace) {
                    None
                } else {
                    Some(Expression::Variable(name))
                },
                _ => None,
            },
        },
        None => None,
    }
}

/// What parsing an expression from a spot gives: a failure; a form this description leaves
/// open (one that holds code: a lambda, `match`, `if`, a loop, `try`, `select`, `go`, `new`, a
/// `struct` literal, a `::` call, or a name that holds a dot); or the expression found, if any,
/// and where the parser then stands.
pub enum ExprParse {
    Failed(Failure),
    Open,
    Parsed(Option<ExprModel>, Spot),
}

/// What parsing a list of expressions gives, in the same way.
pub enum ExprsParse {
    Failed(Failure),
    Open,
    Parsed(Seq<ExprModel>, Spot),
}

/// A parser that gave `res` and stands at `p` did what `o` says.
pub open spec fn gives_expr(res: Result<Option<Expression>>, p: Parser, o: ExprParse) -> bool {
    match o {
        ExprParse::Failed(f) => res is Err && fails_with(res->Err_0, f),
        ExprParse::Open => true,
        ExprParse::Parsed(m, sp) => p.spot() == sp && match m {
            None => res == Ok::<Option<Expression>, CompilerError>(None),
            Some(m) => res matches Ok(Some(e)) && e.model() == m,
        },
    }
}

/// A parser that gave `res` and stands at `p` did what `o` says.
pub open spec fn gives_exprs(res: Result<Vec<Expression>>, p: Parser, o: ExprsParse) -> bool {
    match o {
        ExprsParse::Failed(f) => res is Err && fails_with(res->Err_0, f),
        ExprsParse::Open => true,
        ExprsParse::Parsed(ms, sp) => p.spot() == sp && (res matches Ok(v) && expr_models(v@) == ms),
    }
}

/// The operator a token of kind `k` stands for at binary precedence `level`: assignments at 19,
/// then `||`, `&&`, equality, comparison, `|`, `^`, `&`, shifts, `+ -` and `* / %` down to 8.
pub open spec fn level_op(level: int, k: TokenKind) -> Option<BinaryOp> {
    if level == 19 {
        assign_op(k)
    } else if level == 17 {
        if k == TokenKind::LogicalOr { Some(BinaryOp::LogicalOr) } else { None }
    } else if level == 16 {
        if k == TokenKind::LogicalAnd { Some(BinaryOp::LogicalAnd) } else { None }
    } else if level == 15 {
        match k {
            TokenKind::Equal => Some(BinaryOp::Equal),
            TokenKind::NotEqual => Some(BinaryOp::NotEqual),
            _ => None,
        }
    } else if level == 14 {
        match k {
            TokenKind::Greater => Some(BinaryOp::Greater),
            TokenKind::GreaterEqual => Some(BinaryOp::GreaterEqual),
            TokenKind::Less => Some(BinaryOp::Less),
            TokenKind::LessEqual => Some(BinaryOp::LessEqual),
            _ => None,
        }
    } else if level == 13 {
        if k == TokenKind::Pipe { Some(BinaryOp::BitOr) } else { None }
    } else if level == 12 {
        if k == TokenKind::Caret { Some(BinaryOp::BitXor) } else { None }
    } else if level == 11 {
        if k == TokenKind::Ampersand { Some(BinaryOp::BitAnd) } else { None }
    } else if level == 10 {
        match k {
            TokenKind::LeftShift => Some(BinaryOp::LeftShift),
            TokenKind::RightShift => Some(BinaryOp::RightShift),
            _ => None,
        }
    } else if level == 9 {
        match k {
            TokenKind::Plus => Some(BinaryOp::Add),
            TokenKind::Minus => Some(BinaryOp::Sub),
            _ => None,
        }
    } else if level == 8 {
        match k {
            TokenKind::Star => Some(BinaryOp::Mul),
            TokenKind::Slash => Some(BinaryOp::Div),
            TokenKind::Percent => Some(BinaryOp::Mod),
            _ => None,
        }
    } else {
        None
    }
}

/// The prefix operator a token of kind `k` stands for.
pub open spec fn unary_op_of(k: TokenKind) -> Option<UnaryOp> {
    match k {
        TokenKind::Not => Some(UnaryOp::Not),
        TokenKind::Tilde => Some(UnaryOp::BitNot),
        TokenKind::Minus => Some(UnaryOp::Neg),
        TokenKind::Plus => Some(UnaryOp::Pos),
        TokenKind::Star => Some(UnaryOp::Deref),
        TokenKind::Ampersand => Some(UnaryOp::AddrOf),
        _ => None,
    }
}

/// The tokens that open a primary form this description leaves open.
pub open spec fn opens_code_form(k: TokenKind) -> bool {
    k == TokenKind::Struct || k == TokenKind::Fn || k == TokenKind::Match || k == TokenKind::If
        || k == TokenKind::For || k == TokenKind::While || k == TokenKind::Try || k == TokenKind::Select
        || k == TokenKind::Go || k == TokenKind::New
}

/// An expression at precedence `level`: 20 and 19 a whole expression (assignments bind
/// loosest and group to the left), 18 a conditional `c ? a : b`, 17 down to 8 the binary
/// operators of `level_op`, each grouping to the left over the level below, 7 a prefix
/// operator, 6 a postfix call, index or field access, 5 a primary expression.
pub open spec fn expr_at(inp: TokenInput, s: Spot, level: int) -> ExprParse
    decreases measure_at(inp, s), if level < 5 { 10int } else { 2 * level },
{
    if level >= 20 {
        expr_at(inp, s, 19)
    } else if level == 18 {
        conditional_at(inp, s)
    } else if level >= 8 {
        match expr_at(inp, s, level - 1) {
            ExprParse::Failed(f) => ExprParse::Failed(f),
            ExprParse::Open => ExprParse::Open,
            ExprParse::Parsed(None, s1) => ExprParse::Parsed(None, s1),
            ExprParse::Parsed(Some(first), s1) => if smaller(inp, s1, s) {
                binary_rest_at(inp, s1, first, level)
            } else {
                ExprParse::Failed(stalled())
            },
        }
    } else if level == 7 {
        unary_at(inp, s)
    } else if level == 6 {
        match expr_at(inp, s, 5) {
            ExprParse::Failed(f) => ExprParse::Failed(f),
            ExprParse::Open => ExprParse::Open,
            ExprParse::Parsed(None, s1) => ExprParse::Parsed(None, s1),
            ExprParse::Parsed(Some(first), s1) => if smaller(inp, s1, s) {
                postfix_rest_at(inp, s1, first)
            } else {
                ExprParse::Failed(stalled())
            },
        }
    } else {
        primary_at(inp, s)
    }
}

/// The operators of `level` and their right operands after the left operand `acc`.
pub open spec fn binary_rest_at(inp: TokenInput, s: Spot, acc: ExprModel, level: int) -> ExprParse
    decreases measure_at(inp, s), 0int,
{
    match kind_of(s.current) {
        None => ExprParse::Parsed(Some(acc), s),
        Some(k) => match level_op(level, k) {
            None => ExprParse::Parsed(Some(acc), s),
            Some(op) => if read_fails_at(inp, s) {
                ExprParse::Failed(lexical_failure(inp))
            } else if !smaller(inp, read_at(inp, s), s) {
                ExprParse::Failed(stalled())
            } else {
                match expr_at(inp, read_at(inp, s), level - 1) {
                    ExprParse::Failed(f) => ExprParse::Failed(f),
                    ExprParse::Open => ExprParse::Open,
                    ExprParse::Parsed(r, s2) => if smaller(inp, s2, s) {
                        binary_rest_at(inp, s2, match r {
                            Some(r) => ExprModel::Binary(Box::new(acc), op, Box::new(r), location_of(s2.current)),
                            None => acc,
                        }, level)
                    } else {
                        ExprParse::Failed(stalled())
                    },
                }
            },
        },
    }
}

/// A conditional: an operand, then `?`, a whole expression, `:` and a whole expression; when
/// either branch is missing, the operand alone.
pub open spec fn conditional_at(inp: TokenInput, s: Spot) -> ExprParse
    decreases measure_at(inp, s), 35int,
{
    match expr_at(inp, s, 17) {
        ExprParse::Failed(f) => ExprParse::Failed(f),
        ExprParse::Open => ExprParse::Open,
        ExprParse::Parsed(None, s1) => ExprParse::Parsed(None, s1),
        ExprParse::Parsed(Some(c), s1) => match consume_at(inp, s1, TokenKind::Question) {
            Err(f) => ExprParse::Failed(f),
            Ok((false, s2)) => ExprParse::Parsed(Some(c), s2),
            Ok((true, s2)) => if !smaller(inp, s2, s) {
                ExprParse::Failed(stalled())
            } else {
                match expr_at(inp, s2, 20) {
                    ExprParse::Failed(f) => ExprParse::Failed(f),
                    ExprParse::Open => ExprParse::Open,
                    ExprParse::Parsed(t, s3) => match expect_at(inp, s3, Token::Colon) {
                        Err(f) => ExprParse::Failed(f),
                        Ok(s4) => if !smaller(inp, s4, s) {
                            ExprParse::Failed(stalled())
                        } else {
                            match expr_at(inp, s4, 20) {
                                ExprParse::Failed(f) => ExprParse::Failed(f),
                                ExprParse::Open => ExprParse::Open,
                                ExprParse::Parsed(e, s5) => ExprParse::Parsed(Some(match (t, e) {
                                    (Some(t), Some(e)) => ExprModel::Conditional(Box::new(c), Box::new(t), Box::new(e),
                                        location_of(s5.current)),
                                    _ => c,
                                }), s5),
                            }
                        },
                    },
                }
            },
        },
    }
}

/// A prefix operator and its operand (itself prefixed or not); when no operand follows, a
/// postfix expression from there; or a postfix expression.
pub open spec fn unary_at(inp: TokenInput, s: Spot) -> ExprParse
    decreases measure_at(inp, s), 13int,
{
    match kind_of(s.current) {
        Some(k) => match unary_op_of(k) {
            Some(op) => if read_fails_at(inp, s) {
                ExprParse::Failed(lexical_failure(inp))
            } else if !smaller(inp, read_at(inp, s), s) {
                ExprParse::Failed(stalled())
            } else {
                match expr_at(inp, read_at(inp, s), 7) {
                    ExprParse::Failed(f) => ExprParse::Failed(f),
                    ExprParse::Open => ExprParse::Open,
                    ExprParse::Parsed(Some(o), s2) => ExprParse::Parsed(
                        Some(ExprModel::Unary(op, Box::new(o), location_of(s2.current))), s2),
                    ExprParse::Parsed(None, s2) => if smaller(inp, s2, s) {
                        expr_at(inp, s2, 6)
                    } else {
                        ExprParse::Failed(stalled())
                    },
                }
            },
            None => expr_at(inp, s, 6),
        },
        None => expr_at(inp, s, 6),
    }
}

/// Calls, index accesses and field accesses after the expression `acc`; a `::` call is left
/// open.
pub open spec fn postfix_rest_at(inp: TokenInput, s: Spot, acc: ExprModel) -> ExprParse
    decreases measure_at(inp, s), 0int,
{
    match kind_of(s.current) {
        Some(k) => if k == TokenKind::ColonColon {
            ExprParse::Open
        } else if k == TokenKind::LeftParen || k == TokenKind::LeftBracket || k == TokenKind::Dot {
            if read_fails_at(inp, s) {
                ExprParse::Failed(lexical_failure(inp))
            } else if !smaller(inp, read_at(inp, s), s) {
                ExprParse::Failed(stalled())
            } else {
                let s1 = read_at(inp, s);
                if k == TokenKind::LeftParen {
                    match exprs_at(inp, s1, TokenKind::RightParen) {
                        ExprsParse::Failed(f) => ExprParse::Failed(f),
                        ExprsParse::Open => ExprParse::Open,
                        ExprsParse::Parsed(args, s2) => match expect_at(inp, s2, Token::RightParen) {
                            Err(f) => ExprParse::Failed(f),
                            Ok(s3) => if smaller(inp, s3, s) {
                                postfix_rest_at(inp, s3, ExprModel::Call(Box::new(acc), Seq::empty(), args, location_of(s3.current)))
                            } else {
                                ExprParse::Failed(stalled())
                            },
                        },
                    }
                } else if k == TokenKind::LeftBracket {
                    match expr_at(inp, s1, 20) {
                        ExprParse::Failed(f) => ExprParse::Failed(f),
                        ExprParse::Open => ExprParse::Open,
                        ExprParse::Parsed(i, s2) => match expect_at(inp, s2, Token::RightBracket) {
                            Err(f) => ExprParse::Failed(f),
                            Ok(s3) => if smaller(inp, s3, s) {
                                postfix_rest_at(inp, s3, match i {
                                    Some(i) => ExprModel::IndexAccess(Box::new(acc), Box::new(i), location_of(s3.current)),
                                    None => acc,
                                })
                            } else {
                                ExprParse::Failed(stalled())
                            },
                        },
                    }
                } else {
                    match cur_identifier_at(s1) {
                        None => ExprParse::Failed(Failure::Syntax(location_of(s1.current), "Expected field name after '.'"@)),
                        Some(f) => if read_fails_at(inp, s1) {
                            ExprParse::Failed(lexical_failure(inp))
                        } else if smaller(inp, read_at(inp, s1), s) {
                            postfix_rest_at(inp, read_at(inp, s1),
                                ExprModel::FieldAccess(Box::new(acc), f, location_of(read_at(inp, s1).current)))
                        } else {
                            ExprParse::Failed(stalled())
                        },
                    }
                }
            }
        } else {
            ExprParse::Parsed(Some(acc), s)
        },
        None => ExprParse::Parsed(Some(acc), s),
    }
}

/// The expressions of a list that closes with a token of kind `close`: none when it closes at
/// once.
pub open spec fn exprs_at(inp: TokenInput, s: Spot, close: TokenKind) -> ExprsParse
    decreases measure_at(inp, s), 44int,
{
    if kind_of(s.current) == Some(close) {
        ExprsParse::Parsed(Seq::empty(), s)
    } else {
        expr_list_at(inp, s, Seq::empty())
    }
}

/// Expressions separated by commas, after those in `acc`; a place where none starts adds none.
pub open spec fn expr_list_at(inp: TokenInput, s: Spot, acc: Seq<ExprModel>) -> ExprsParse
    decreases measure_at(inp, s), 42int,
{
    match expr_at(inp, s, 20) {
        ExprParse::Failed(f) => ExprsParse::Failed(f),
        ExprParse::Open => ExprsParse::Open,
        ExprParse::Parsed(e, s1) => {
            let acc1 = match e {
                Some(e) => acc.push(e),
                None => acc,
            };
            match consume_at(inp, s1, TokenKind::Comma) {
                Err(f) => ExprsParse::Failed(f),
                Ok((false, s2)) => ExprsParse::Parsed(acc1, s2),
                Ok((true, s2)) => if smaller(inp, s2, s) {
                    expr_list_at(inp, s2, acc1)
                } else {
                    ExprsParse::Failed(stalled())
                },
            }
        },
    }
}

/// What parsing a list of items gives: a failure, a form left open, or the items and where the
/// parser then stands.
pub enum ListParse<T> {
    Failed(Failure),
    Open,
    Parsed(Seq<T>, Spot),
}

/// A struct literal's field values after those in `acc`: each a name, `:` and a value,
/// separated by commas; a place where no name stands adds none.
pub open spec fn field_init_list_at(inp: TokenInput, s: Spot, acc: Seq<(Seq<char>, ExprModel, Location)>)
    -> ListParse<(Seq<char>, ExprModel, Location)>
    decreases measure_at(inp, s), 42int,
{
    let item = match cur_identifier_at(s) {
        None => ListParse::Parsed(acc, s),
        Some(n) => if read_fails_at(inp, s) {
            ListParse::Failed(lexical_failure(inp))
        } else {
            match expect_at(inp, read_at(inp, s), Token::Colon) {
                Err(f) => ListParse::Failed(f),
                Ok(s2) => if !smaller(inp, s2, s) {
                    ListParse::Failed(stalled())
                } else {
                    match expr_at(inp, s2, 20) {
                        ExprParse::Failed(f) => ListParse::Failed(f),
                        ExprParse::Open => ListParse::Open,
                        ExprParse::Parsed(None, s3) => ListParse::Parsed(acc, s3),
                        ExprParse::Parsed(Some(v), s3) => ListParse::Parsed(acc.push((n, v, location_of(s3.current))), s3),
                    }
                },
            }
        },
    };
    match item {
        ListParse::Failed(f) => ListParse::Failed(f),
        ListParse::Open => ListParse::Open,
        ListParse::Parsed(acc1, s3) => match consume_at(inp, s3, TokenKind::Comma) {
            Err(f) => ListParse::Failed(f),
            Ok((false, s4)) => ListParse::Parsed(acc1, s4),
            Ok((true, s4)) => if smaller(inp, s4, s) {
                field_init_list_at(inp, s4, acc1)
            } else {
                ListParse::Failed(stalled())
            },
        },
    }
}

/// A map literal's entries after those in `acc`: each a key, `:` and a value, separated by
/// commas; an entry missing its key or value adds none.
pub open spec fn map_entries_at(inp: TokenInput, s: Spot, acc: Seq<(ExprModel, ExprModel, Location)>)
    -> ListParse<(ExprModel, ExprModel, Location)>
    decreases measure_at(inp, s), 42int,
{
    match expr_at(inp, s, 20) {
        ExprParse::Failed(f) => ListParse::Failed(f),
        ExprParse::Open => ListParse::Open,
        ExprParse::Parsed(k, s1) => match expect_at(inp, s1, Token::Colon) {
            Err(f) => ListParse::Failed(f),
            Ok(s2) => if !smaller(inp, s2, s) {
                ListParse::Failed(stalled())
            } else {
                match expr_at(inp, s2, 20) {
                    ExprParse::Failed(f) => ListParse::Failed(f),
                    ExprParse::Open => ListParse::Open,
                    ExprParse::Parsed(v, s3) => {
                        let acc1 = match (k, v) {
                            (Some(k), Some(v)) => acc.push((k, v, location_of(s3.current))),
                            _ => acc,
                        };
                        match consume_at(inp, s3, TokenKind::Comma) {
                            Err(f) => ListParse::Failed(f),
                            Ok((false, s4)) => ListParse::Parsed(acc1, s4),
                            Ok((true, s4)) => if smaller(inp, s4, s) {
                                map_entries_at(inp, s4, acc1)
                            } else {
                                ListParse::Failed(stalled())
                            },
                        }
                    },
                }
            },
        },
    }
}

/// A map literal whose entries parsed as `entries`, closed by `}`.
pub open spec fn map_close(inp: TokenInput, entries: ListParse<(ExprModel, ExprModel, Location)>) -> ExprParse {
    match entries {
        ListParse::Failed(f) => ExprParse::Failed(f),
        ListParse::Open => ExprParse::Open,
        ListParse::Parsed(es, s3) => match expect_at(inp, s3, Token::RightBrace) {
            Err(f) => ExprParse::Failed(f),
            Ok(s4) => ExprParse::Parsed(Some(ExprModel::MapLiteral(es, location_of(s4.current))), s4),
        },
    }
}

/// A map literal: `map`, `{`, entries and `}`.
pub open spec fn map_literal_at(inp: TokenInput, s: Spot) -> ExprParse
    decreases measure_at(inp, s), 8int,
{
    match expect_at(inp, s, Token::MapKw) {
        Err(f) => ExprParse::Failed(f),
        Ok(s1) => match expect_at(inp, s1, Token::LeftBrace) {
            Err(f) => ExprParse::Failed(f),
            Ok(s2) => if !smaller(inp, s2, s) {
                ExprParse::Failed(stalled())
            } else {
                let entries = if kind_of(s2.current) == Some(TokenKind::RightBrace) {
                    ListParse::Parsed(Seq::empty(), s2)
                } else {
                    map_entries_at(inp, s2, Seq::empty())
                };
                map_close(inp, entries)
            },
        },
    }
}

/// An array literal: `[`, expressions and `]`.
pub open spec fn array_literal_at(inp: TokenInput, s: Spot) -> ExprParse
    decreases measure_at(inp, s), 8int,
{
    match expect_at(inp, s, Token::LeftBracket) {
        Err(f) => ExprParse::Failed(f),
        Ok(s1) => if !smaller(inp, s1, s) {
            ExprParse::Failed(stalled())
        } else {
            match exprs_at(inp, s1, TokenKind::RightBracket) {
                ExprsParse::Failed(f) => ExprParse::Failed(f),
                ExprsParse::Open => ExprParse::Open,
                ExprsParse::Parsed(es, s2) => match expect_at(inp, s2, Token::RightBracket) {
                    Err(f) => ExprParse::Failed(f),
                    Ok(s3) => ExprParse::Parsed(Some(ExprModel::Array(es, location_of(s3.current))), s3),
                },
            }
        },
    }
}

/// What follows a name in a primary expression: `.` and a field name for a field access, `{`,
/// field values and `}` for a struct literal, or nothing for the name alone.
pub open spec fn named_primary_at(inp: TokenInput, s1: Spot, n: Seq<char>) -> ExprParse
    decreases measure_at(inp, s1), 1int,
{
    match consume_at(inp, s1, TokenKind::Dot) {
        Err(f) => ExprParse::Failed(f),
        Ok((true, s2)) => match cur_identifier_at(s2) {
            None => ExprParse::Failed(Failure::Syntax(location_of(s2.current), "Expected identifier after '.'"@)),
            Some(part) => if read_fails_at(inp, s2) {
                ExprParse::Failed(lexical_failure(inp))
            } else {
                ExprParse::Parsed(Some(ExprModel::FieldAccess(Box::new(ExprModel::Variable(n)), part,
                    location_of(read_at(inp, s2).current))), read_at(inp, s2))
            },
        },
        Ok((false, s2)) => match consume_at(inp, s2, TokenKind::LeftBrace) {
            Err(f) => ExprParse::Failed(f),
            Ok((false, s3)) => ExprParse::Parsed(Some(ExprModel::Variable(n)), s3),
            Ok((true, s3)) => if !smaller(inp, s3, s1) {
                ExprParse::Failed(stalled())
            } else {
                let fields = if kind_of(s3.current) == Some(TokenKind::RightBrace) {
                    ListParse::Parsed(Seq::empty(), s3)
                } else {
                    field_init_list_at(inp, s3, Seq::empty())
                };
                match fields {
                    ListParse::Failed(f) => ExprParse::Failed(f),
                    ListParse::Open => ExprParse::Open,
                    ListParse::Parsed(fs, s4) => match expect_at(inp, s4, Token::RightBrace) {
                        Err(f) => ExprParse::Failed(f),
                        Ok(s5) => ExprParse::Parsed(Some(ExprModel::Struct(
                            TypeModel::Struct(n, Seq::empty(), location_of(s5.current)), fs, location_of(s5.current))), s5),
                    },
                }
            },
        },
    }
}

/// A primary expression: a literal; a name, with a field access or a struct literal after it;
/// an expression in parentheses (the parentheses dropped); an array or map literal; nothing
/// where no expression starts. The forms that hold code are left open.
pub open spec fn primary_at(inp: TokenInput, s: Spot) -> ExprParse
    decreases measure_at(inp, s), 9int,
{
    match s.current {
        None => ExprParse::Parsed(None, s),
        Some(t) => match literal_of(t.token) {
            Some(l) => if read_fails_at(inp, s) {
                ExprParse::Failed(lexical_failure(inp))
            } else {
                ExprParse::Parsed(Some(ExprModel::Literal(l)), read_at(inp, s))
            },
            None => match t.token {
                Token::Identifier(n) => if n@.contains('.') {
                    ExprParse::Open
                } else if read_fails_at(inp, s) {
                    ExprParse::Failed(lexical_failure(inp))
                } else {
                    if smaller(inp, read_at(inp, s), s) {
                        named_primary_at(inp, read_at(inp, s), n@)
                    } else {
                        ExprParse::Failed(stalled())
                    }
                },
                Token::LeftParen => if read_fails_at(inp, s) {
                    ExprParse::Failed(lexical_failure(inp))
                } else if !smaller(inp, read_at(inp, s), s) {
                    ExprParse::Failed(stalled())
                } else {
                    match expr_at(inp, read_at(inp, s), 20) {
                        ExprParse::Failed(f) => ExprParse::Failed(f),
                        ExprParse::Open => ExprParse::Open,
                        ExprParse::Parsed(e, s2) => match expect_at(inp, s2, Token::RightParen) {
                            Err(f) => ExprParse::Failed(f),
                            Ok(s3) => ExprParse::Parsed(e, s3),
                        },
                    }
                },
                Token::LeftBracket => array_literal_at(inp, s),
                Token::MapKw => map_literal_at(inp, s),
                _ => if opens_code_form(t.token.spec_kind()) {
                    ExprParse::Open
                } else {
                    ExprParse::Parsed(None, s)
                },
            },
        },
    }
}

/// Parse an expression
pub fn parse_expression(parser: &mut Parser) -> (res: Result<Option<Expression>>)
    requires
        old(parser).wf(),
    ensures
        advanced(*old(parser), *final(parser)),
        res matches Ok(Some(_)) ==> final(parser).measure() < old(parser).measure(),
        !cur_starts_expression(*old(parser)) ==> (res matches Ok(None) && *final(parser) == *old(parser)),
        simple_primary(*old(parser)) is Some && !next_read_fails(*old(parser))
            && !binds_after(20, next_kind(*old(parser)))
            ==> res == Ok::<Option<Expression>, CompilerError>(simple_primary(*old(parser)))
                && stepped(*old(parser), *final(parser)),
        gives_expr(res, *final(parser), expr_at(old(parser).input(), old(parser).spot(), 20)),
    decreases old(parser).measure(), 20int,
{
    parse_assignment(parser)
}

/// Parse assignment expression (lowest precedence)
fn parse_assignment(parser: &mut Parser) -> (res: Result<Option<Expression>>)
    requires
        old(parser).wf(),
    ensures
        advanced(*old(parser), *final(parser)),
        res matches Ok(Some(_)) ==> final(parser).measure() < old(parser).measure(),
        !cur_starts_expression(*old(parser)) ==> (res matches Ok(None) && *final(parser) == *old(parser)),
        simple_primary(*old(parser)) is Some && !next_read_fails(*old(parser))
            && !binds_after(19, next_kind(*old(parser)))
            ==> res == Ok::<Option<Expression>, CompilerError>(simple_primary(*old(parser)))
                && stepped(*old(parser), *final(parser)),
        gives_expr(res, *final(parser), expr_at(old(parser).input(), old(parser).spot(), 19)),
    decreases old(parser).measure(), 19int,
{
    let ghost inp = parser.input();
    let ghost s0 = parser.spot();
    let ghost top = expr_at(inp, s0, 19);
    let first = match parse_conditional(parser)? {
        Some(e) => e,
        None => {
            return Ok(None);
        },
    };
    let ghost after_first = *parser;
    let ghost first_expr = first;
    let mut e = first;
    let mut extended = false;
    loop
        invariant_except_break
            top is Open || binary_rest_at(inp, parser.spot(), e.model(), 19) == top,
        invariant
            parser.input() == inp,
            inp == old(parser).input(),
            top == expr_at(inp, old(parser).spot(), 19),
            advanced(*old(parser), *parser),
            parser.measure() < old(parser).measure(),
            !extended ==> *parser == after_first && e == first_expr,
            extended ==> binds_after(19, after_first.cur_kind()),
            cur_starts_expression(*old(parser)),
            simple_primary(*old(parser)) is Some && !next_read_fails(*old(parser))
                && !binds_after(18, next_kind(*old(parser)))
                ==> first_expr == simple_primary(*old(parser))->0 && stepped(*old(parser), after_first)
                    && after_first.cur_kind() == next_kind(*old(parser)),
        ensures
            top is Open || top == ExprParse::Parsed(Some(e.model()), parser.spot()),
            advanced(*old(parser), *parser),
            parser.measure() < old(parser).measure(),
            !extended ==> *parser == after_first && e == first_expr,
            extended ==> binds_after(19, after_first.cur_kind()),
        decreases parser.measure(),
    {
        let op = match parser.current_kind() {
            Some(TokenKind::Assign) => BinaryOp::Assign,
            Some(TokenKind::PlusAssign) => BinaryOp::AddAssign,
            Some(TokenKind::MinusAssign) => BinaryOp::SubAssign,
            Some(TokenKind::StarAssign) => BinaryOp::MulAssign,
            Some(TokenKind::SlashAssign) => BinaryOp::DivAssign,
            Some(TokenKind::PercentAssign) => BinaryOp::ModAssign,
            Some(TokenKind::AmpersandAssign) => BinaryOp::BitAndAssign,
            Some(TokenKind::PipeAssign) => BinaryOp::BitOrAssign,
            Some(TokenKind::CaretAssign) => BinaryOp::BitXorAssign,
            Some(TokenKind::LeftShiftAssign) => BinaryOp::LeftShiftAssign,
            Some(TokenKind::RightShiftAssign) => BinaryOp::RightShiftAssign,
            _ => {
                break;
            },
        };
        let ghost sb = parser.spot();
        parser.advance()?;
        match parse_conditional(parser)? {
            Some(right) => {
                let location = parser.current_location();
                e = Expression::Binary(BinaryExpr { left: Box::new(e), operator: op, right: Box::new(right), location });
            },
            None => {},
        }
        extended = true;
    }
    Ok(Some(e))
}

/// Parse logical OR expression
fn parse_logical_or(parser: &mut Parser) -> (res: Result<Option<Expression>>)
    requires
        old(parser).wf(),
    ensures
        advanced(*old(parser), *final(parser)),
        res matches Ok(Some(_)) ==> final(parser).measure() < old(parser).measure(),
        !cur_starts_expression(*old(parser)) ==> (res matches Ok(None) && *final(parser) == *old(parser)),
        simple_primary(*old(parser)) is Some && !next_read_fails(*old(parser))
            && !binds_after(17, next_kind(*old(parser)))
            ==> res == Ok::<Option<Expression>, CompilerError>(simple_primary(*old(parser)))
                && stepped(*old(parser), *final(parser)),
        gives_expr(res, *final(parser), expr_at(old(parser).input(), old(parser).spot(), 17)),
    decreases old(parser).measure(), 17int,
{
    let ghost inp = parser.input();
    let ghost s0 = parser.spot();
    let ghost top = expr_at(inp, s0, 17);
    let first = match parse_logical_and(parser)? {
        Some(e) => e,
        None => {
            return Ok(None);
        },
    };
    let ghost after_first = *parser;
    let ghost first_expr = first;
    let mut e = first;
    let mut extended = false;
    loop
        invariant_except_break
            top is Open || binary_rest_at(inp, parser.spot(), e.model(), 17) == top,
        invariant
            parser.input() == inp,
            inp == old(parser).input(),
            top == expr_at(inp, old(parser).spot(), 17),
            advanced(*old(parser), *parser),
            parser.measure() < old(parser).measure(),
            !extended ==> *parser == after_first && e == first_expr,
            extended ==> binds_after(17, after_first.cur_kind()),
            cur_starts_expression(*old(parser)),
            simple_primary(*old(parser)) is Some && !next_read_fails(*old(parser))
                && !binds_after(16, next_kind(*old(parser)))
                ==> first_expr == simple_primary(*old(parser))->0 && stepped(*old(parser), after_first)
                    && after_first.cur_kind() == next_kind(*old(parser)),
        ensures
            top is Open || top == ExprParse::Parsed(Some(e.model()), parser.spot()),
            advanced(*old(parser), *parser),
            parser.measure() < old(parser).measure(),
            !extended ==> *parser == after_first && e == first_expr,
            extended ==> binds_after(17, after_first.cur_kind()),
        decreases parser.measure(),
    {
        let op = match parser.current_kind() {
            Some(TokenKind::LogicalOr) => BinaryOp::LogicalOr,
            _ => {
                break;
            },
        };
        let ghost sb = parser.spot();
        parser.advance()?;
        match parse_logical_and(parser)? {
            Some(right) => {
                let location = parser.current_location();
                e = Expression::Binary(BinaryExpr { left: Box::new(e), operator: op, right: Box::new(right), location });
            },
            None => {},
        }
        extended = true;
    }
    Ok(Some(e))
}

/// Parse logical AND expression
fn parse_logical_and(parser: &mut Parser) -> (res: Result<Option<Expression>>)
    requires
        old(parser).wf(),
    ensures
        advanced(*old(parser), *final(parser)),
        res matches Ok(Some(_)) ==> final(parser).measure() < old(parser).measure(),
        !cur_starts_expression(*old(parser)) ==> (res matches Ok(None) && *final(parser) == *old(parser)),
        simple_primary(*old(parser)) is Some && !next_read_fails(*old(parser))
            && !binds_after(16, next_kind(*old(parser)))
            ==> res == Ok::<Option<Expression>, CompilerError>(simple_primary(*old(parser)))
                && stepped(*old(parser), *final(parser)),
        gives_expr(res, *final(parser), expr_at(old(parser).input(), old(parser).spot(), 16)),
    decreases old(parser).measure(), 16int,
{
    let ghost inp = parser.input();
    let ghost s0 = parser.spot();
    let ghost top = expr_at(inp, s0, 16);
    let first = match parse_equality(parser)? {
        Some(e) => e,
        None => {
            return Ok(None);
        },
    };
    let ghost after_first = *parser;
    let ghost first_expr = first;
    let mut e = first;
    let mut extended = false;
    loop
        invariant_except_break
            top is Open || binary_rest_at(inp, parser.spot(), e.model(), 16) == top,
        invariant
            parser.input() == inp,
            inp == old(parser).input(),
            top == expr_at(inp, old(parser).spot(), 16),
            advanced(*old(parser), *parser),
            parser.measure() < old(parser).measure(),
            !extended ==> *parser == after_first && e == first_expr,
            extended ==> binds_after(16, after_first.cur_kind()),
            cur_starts_expression(*old(parser)),
            simple_primary(*old(parser)) is Some && !next_read_fails(*old(parser))
                && !binds_after(15, next_kind(*old(parser)))
                ==> first_expr == simple_primary(*old(parser))->0 && stepped(*old(parser), after_first)
                    && after_first.cur_kind() == next_kind(*old(parser)),
        ensures
            top is Open || top == ExprParse::Parsed(Some(e.model()), parser.spot()),
            advanced(*old(parser), *parser),
            parser.measure() < old(parser).measure(),
            !extended ==> *parser == after_first && e == first_expr,
            extended ==> binds_after(16, after_first.cur_kind()),
        decreases parser.measure(),
    {
        let op = match parser.current_kind() {
            Some(TokenKind::LogicalAnd) => BinaryOp::LogicalAnd,
            _ => {
                break;
            },
        };
        let ghost sb = parser.spot();
        parser.advance()?;
        match parse_equality(parser)? {
            Some(right) => {
                let location = parser.current_location();
                e = Expression::Binary(BinaryExpr { left: Box::new(e), operator: op, right: Box::new(right), location });
            },
            None => {},
        }
        extended = true;
    }
    Ok(Some(e))
}

/// Parse equality expression
fn parse_equality(parser: &mut Parser) -> (res: Result<Option<Expression>>)
    requires
        old(parser).wf(),
    ensures
        advanced(*old(parser), *final(parser)),
        res matches Ok(Some(_)) ==> final(parser).measure() < old(parser).measure(),
        !cur_starts_expression(*old(parser)) ==> (res matches Ok(None) && *final(parser) == *old(parser)),
        simple_primary(*old(parser)) is Some && !next_read_fails(*old(parser))
            && !binds_after(15, next_kind(*old(parser)))
            ==> res == Ok::<Option<Expression>, CompilerError>(simple_primary(*old(parser)))
                && stepped(*old(parser), *final(parser)),
        gives_expr(res, *final(parser), expr_at(old(parser).input(), old(parser).spot(), 15)),
    decreases old(parser).measure(), 15int,
{
    let ghost inp = parser.input();
    let ghost s0 = parser.spot();
    let ghost top = expr_at(inp, s0, 15);
    let first = match parse_comparison(parser)? {
        Some(e) => e,
        None => {
            return Ok(None);
        },
    };
    let ghost after_first = *parser;
    let ghost first_expr = first;
    let mut e = first;
    let mut extended = false;
    loop
        invariant_except_break
            top is Open || binary_rest_at(inp, parser.spot(), e.model(), 15) == top,
        invariant
            parser.input() == inp,
            inp == old(parser).input(),
            top == expr_at(inp, old(parser).spot(), 15),
            advanced(*old(parser), *parser),
            parser.measure() < old(parser).measure(),
            !extended ==> *parser == after_first && e == first_expr,
            extended ==> binds_after(15, after_first.cur_kind()),
            cur_starts_expression(*old(parser)),
            simple_primary(*old(parser)) is Some && !next_read_fails(*old(parser))
                && !binds_after(14, next_kind(*old(parser)))
                ==> first_expr == simple_primary(*old(parser))->0 && stepped(*old(parser), after_first)
                    && after_first.cur_kind() == next_kind(*old(parser)),
        ensures
            top is Open || top == ExprParse::Parsed(Some(e.model()), parser.spot()),
            advanced(*old(parser), *parser),
            parser.measure() < old(parser).measure(),
            !extended ==> *parser == after_first && e == first_expr,
            extended ==> binds_after(15, after_first.cur_kind()),
        decreases parser.measure(),
    {
        let op = match parser.current_kind() {
            Some(TokenKind::Equal) => BinaryOp::Equal,
            Some(TokenKind::NotEqual) => BinaryOp::NotEqual,
            _ => {
                break;
            },
        };
        let ghost sb = parser.spot();
        parser.advance()?;
        match parse_comparison(parser)? {
            Some(right) => {
                let location = parser.current_location();
                e = Expression::Binary(BinaryExpr { left: Box::new(e), operator: op, right: Box::new(right), location });
            },
            None => {},
        }
        extended = true;
    }
    Ok(Some(e))
}

/// Parse comparison expression
fn parse_comparison(parser: &mut Parser) -> (res: Result<Option<Expression>>)
    requires
        old(parser).wf(),
    ensures
        advanced(*old(parser), *final(parser)),
        res matches Ok(Some(_)) ==> final(parser).measure() < old(parser).measure(),
        !cur_starts_expression(*old(parser)) ==> (res matches Ok(None) && *final(parser) == *old(parser)),
        simple_primary(*old(parser)) is Some && !next_read_fails(*old(parser))
            && !binds_after(14, next_kind(*old(parser)))
            ==> res == Ok::<Option<Expression>, CompilerError>(simple_primary(*old(parser)))
                && stepped(*old(parser), *final(parser)),
        gives_expr(res, *final(parser), expr_at(old(parser).input(), old(parser).spot(), 14)),
    decreases old(parser).measure(), 14int,
{
    let ghost inp = parser.input();
    let ghost s0 = parser.spot();
    let ghost top = expr_at(inp, s0, 14);
    let first = match parse_bitwise_or(parser)? {
        Some(e) => e,
        None => {
            return Ok(None);
        },
    };
    let ghost after_first = *parser;
    let ghost first_expr = first;
    let mut e = first;
    let mut extended = false;
    loop
        invariant_except_break
            top is Open || binary_rest_at(inp, parser.spot(), e.model(), 14) == top,
        invariant
            parser.input() == inp,
            inp == old(parser).input(),
            top == expr_at(inp, old(parser).spot(), 14),
            advanced(*old(parser), *parser),
            parser.measure() < old(parser).measure(),
            !extended ==> *parser == after_first && e == first_expr,
            extended ==> binds_after(14, after_first.cur_kind()),
            cur_starts_expression(*old(parser)),
            simple_primary(*old(parser)) is Some && !next_read_fails(*old(parser))
                && !binds_after(13, next_kind(*old(parser)))
                ==> first_expr == simple_primary(*old(parser))->0 && stepped(*old(parser), after_first)
                    && after_first.cur_kind() == next_kind(*old(parser)),
        ensures
            top is Open || top == ExprParse::Parsed(Some(e.model()), parser.spot()),
            advanced(*old(parser), *parser),
            parser.measure() < old(parser).measure(),
            !extended ==> *parser == after_first && e == first_expr,
            extended ==> binds_after(14, after_first.cur_kind()),
        decreases parser.measure(),
    {
        let op = match parser.current_kind() {
            Some(TokenKind::Greater) => BinaryOp::Greater,
            Some(TokenKind::GreaterEqual) => BinaryOp::GreaterEqual,
            Some(TokenKind::Less) => BinaryOp::Less,
            Some(TokenKind::LessEqual) => BinaryOp::LessEqual,
            _ => {
                break;
            },
        };
        let ghost sb = parser.spot();
        parser.advance()?;
        match parse_bitwise_or(parser)? {
            Some(right) => {
                let location = parser.current_location();
                e = Expression::Binary(BinaryExpr { left: Box::new(e), operator: op, right: Box::new(right), location });
            },
            None => {},
        }
        extended = true;
    }
    Ok(Some(e))
}

/// Parse bitwise OR expression
fn parse_bitwise_or(parser: &mut Parser) -> (res: Result<Option<Expression>>)
    requires
        old(parser).wf(),
    ensures
        advanced(*old(parser), *final(parser)),
        res matches Ok(Some(_)) ==> final(parser).measure() < old(parser).measure(),
        !cur_starts_expression(*old(parser)) ==> (res matches Ok(None) && *final(parser) == *old(parser)),
        simple_primary(*old(parser)) is Some && !next_read_fails(*old(parser))
            && !binds_after(13, next_kind(*old(parser)))
            ==> res == Ok::<Option<Expression>, CompilerError>(simple_primary(*old(parser)))
                && stepped(*old(parser), *final(parser)),
        gives_expr(res, *final(parser), expr_at(old(parser).input(), old(parser).spot(), 13)),
    decreases old(parser).measure(), 13int,
{
    let ghost inp = parser.input();
    let ghost s0 = parser.spot();
    let ghost top = expr_at(inp, s0, 13);
    let first = match parse_bitwise_xor(parser)? {
        Some(e) => e,
        None => {
            return Ok(None);
        },
    };
    let ghost after_first = *parser;
    let ghost first_expr = first;
    let mut e = first;
    let mut extended = false;
    loop
        invariant_except_break
            top is Open || binary_rest_at(inp, parser.spot(), e.model(), 13) == top,
        invariant
            parser.input() == inp,
            inp == old(parser).input(),
            top == expr_at(inp, old(parser).spot(), 13),
            advanced(*old(parser), *parser),
            parser.measure() < old(parser).measure(),
            !extended ==> *parser == after_first && e == first_expr,
            extended ==> binds_after(13, after_first.cur_kind()),
            cur_starts_expression(*old(parser)),
            simple_primary(*old(parser)) is Some && !next_read_fails(*old(parser))
                && !binds_after(12, next_kind(*old(parser)))
                ==> first_expr == simple_primary(*old(parser))->0 && stepped(*old(parser), after_first)
                    && after_first.cur_kind() == next_kind(*old(parser)),
        ensures
            top is Open || top == ExprParse::Parsed(Some(e.model()), parser.spot()),
            advanced(*old(parser), *parser),
            parser.measure() < old(parser).measure(),
            !extended ==> *parser == after_first && e == first_expr,
            extended ==> binds_after(13, after_first.cur_kind()),
        decreases parser.measure(),
    {
        let op = match parser.current_kind() {
            Some(TokenKind::Pipe) => BinaryOp::BitOr,
            _ => {
                break;
            },
        };
        let ghost sb = parser.spot();
        parser.advance()?;
        match parse_bitwise_xor(parser)? {
            Some(right) => {
                let location = parser.current_location();
                e = Expression::Binary(BinaryExpr { left: Box::new(e), operator: op, right: Box::new(right), location });
            },
            None => {},
        }
        extended = true;
    }
    Ok(Some(e))
}

/// Parse bitwise XOR expression
fn parse_bitwise_xor(parser: &mut Parser) -> (res: Result<Option<Expression>>)
    requires
        old(parser).wf(),
    ensures
        advanced(*old(parser), *final(parser)),
        res matches Ok(Some(_)) ==> final(parser).measure() < old(parser).measure(),
        !cur_starts_expression(*old(parser)) ==> (res matches Ok(None) && *final(parser) == *old(parser)),
        simple_primary(*old(parser)) is Some && !next_read_fails(*old(parser))
            && !binds_after(12, next_kind(*old(parser)))
            ==> res == Ok::<Option<Expression>, CompilerError>(simple_primary(*old(parser)))
                && stepped(*old(parser), *final(parser)),
        gives_expr(res, *final(parser), expr_at(old(parser).input(), old(parser).spot(), 12)),
    decreases old(parser).measure(), 12int,
{
    let ghost inp = parser.input();
    let ghost s0 = parser.spot();
    let ghost top = expr_at(inp, s0, 12);
    let first = match parse_bitwise_and(parser)? {
        Some(e) => e,
        None => {
            return Ok(None);
        },
    };
    let ghost after_first = *parser;
    let ghost first_expr = first;
    let mut e = first;
    let mut extended = false;
    loop
        invariant_except_break
            top is Open || binary_rest_at(inp, parser.spot(), e.model(), 12) == top,
        invariant
            parser.input() == inp,
            inp == old(parser).input(),
            top == expr_at(inp, old(parser).spot(), 12),
            advanced(*old(parser), *parser),
            parser.measure() < old(parser).measure(),
            !extended ==> *parser == after_first && e == first_expr,
            extended ==> binds_after(12, after_first.cur_kind()),
            cur_starts_expression(*old(parser)),
            simple_primary(*old(parser)) is Some && !next_read_fails(*old(parser))
                && !binds_after(11, next_kind(*old(parser)))
                ==> first_expr == simple_primary(*old(parser))->0 && stepped(*old(parser), after_first)
                    && after_first.cur_kind() == next_kind(*old(parser)),
        ensures
            top is Open || top == ExprParse::Parsed(Some(e.model()), parser.spot()),
            advanced(*old(parser), *parser),
            parser.measure() < old(parser).measure(),
            !extended ==> *parser == after_first && e == first_expr,
            extended ==> binds_after(12, after_first.cur_kind()),
        decreases parser.measure(),
    {
        let op = match parser.current_kind() {
            Some(TokenKind::Caret) => BinaryOp::BitXor,
            _ => {
                break;
            },
        };
        let ghost sb = parser.spot();
        parser.advance()?;
        match parse_bitwise_and(parser)? {
            Some(right) => {
                let location = parser.current_location();
                e = Expression::Binary(BinaryExpr { left: Box::new(e), operator: op, right: Box::new(right), location });
            },
            None => {},
        }
        extended = true;
    }
    Ok(Some(e))
}

/// Parse bitwise AND expression
fn parse_bitwise_and(parser: &mut Parser) -> (res: Result<Option<Expression>>)
    requires
        old(parser).wf(),
    ensures
        advanced(*old(parser), *final(parser)),
        res matches Ok(Some(_)) ==> final(parser).measure() < old(parser).measure(),
        !cur_starts_expression(*old(parser)) ==> (res matches Ok(None) && *final(parser) == *old(parser)),
        simple_primary(*old(parser)) is Some && !next_read_fails(*old(parser))
            && !binds_after(11, next_kind(*old(parser)))
            ==> res == Ok::<Option<Expression>, CompilerError>(simple_primary(*old(parser)))
                && stepped(*old(parser), *final(parser)),
        gives_expr(res, *final(parser), expr_at(old(parser).input(), old(parser).spot(), 11)),
    decreases old(parser).measure(), 11int,
{
    let ghost inp = parser.input();
    let ghost s0 = parser.spot();
    let ghost top = expr_at(inp, s0, 11);
    let first = match parse_shift(parser)? {
        Some(e) => e,
        None => {
            return Ok(None);
        },
    };
    let ghost after_first = *parser;
    let ghost first_expr = first;
    let mut e = first;
    let mut extended = false;
    loop
        invariant_except_break
            top is Open || binary_rest_at(inp, parser.spot(), e.model(), 11) == top,
        invariant
            parser.input() == inp,
            inp == old(parser).input(),
            top == expr_at(inp, old(parser).spot(), 11),
            advanced(*old(parser), *parser),
            parser.measure() < old(parser).measure(),
            !extended ==> *parser == after_first && e == first_expr,
            extended ==> binds_after(11, after_first.cur_kind()),
            cur_starts_expression(*old(parser)),
            simple_primary(*old(parser)) is Some && !next_read_fails(*old(parser))
                && !binds_after(10, next_kind(*old(parser)))
                ==> first_expr == simple_primary(*old(parser))->0 && stepped(*old(parser), after_first)
                    && after_first.cur_kind() == next_kind(*old(parser)),
        ensures
            top is Open || top == ExprParse::Parsed(Some(e.model()), parser.spot()),
            advanced(*old(parser), *parser),
            parser.measure() < old(parser).measure(),
            !extended ==> *parser == after_first && e == first_expr,
            extended ==> binds_after(11, after_first.cur_kind()),
        decreases parser.measure(),
    {
        let op = match parser.current_kind() {
            Some(TokenKind::Ampersand) => BinaryOp::BitAnd,
            _ => {
                break;
            },
        };
        let ghost sb = parser.spot();
        parser.advance()?;
        match parse_shift(parser)? {
            Some(right) => {
                let location = parser.current_location();
                e = Expression::Binary(BinaryExpr { left: Box::new(e), operator: op, right: Box::new(right), location });
            },
            None => {},
        }
        extended = true;
    }
    Ok(Some(e))
}

/// Parse shift expression
fn parse_shift(parser: &mut Parser) -> (res: Result<Option<Expression>>)
    requires
        old(parser).wf(),
    ensures
        advanced(*old(parser), *final(parser)),
        res matches Ok(Some(_)) ==> final(parser).measure() < old(parser).measure(),
        !cur_starts_expression(*old(parser)) ==> (res matches Ok(None) && *final(parser) == *old(parser)),
        simple_primary(*old(parser)) is Some && !next_read_fails(*old(parser))
            && !binds_after(10, next_kind(*old(parser)))
            ==> res == Ok::<Option<Expression>, CompilerError>(simple_primary(*old(parser)))
                && stepped(*old(parser), *final(parser)),
        gives_expr(res, *final(parser), expr_at(old(parser).input(), old(parser).spot(), 10)),
    decreases old(parser).measure(), 10int,
{
    let ghost inp = parser.input();
    let ghost s0 = parser.spot();
    let ghost top = expr_at(inp, s0, 10);
    let first = match parse_addition(parser)? {
        Some(e) => e,
        None => {
            return Ok(None);
        },
    };
    let ghost after_first = *parser;
    let ghost first_expr = first;
    let mut e = first;
    let mut extended = false;
    loop
        invariant_except_break
            top is Open || binary_rest_at(inp, parser.spot(), e.model(), 10) == top,
        invariant
            parser.input() == inp,
            inp == old(parser).input(),
            top == expr_at(inp, old(parser).spot(), 10),
            advanced(*old(parser), *parser),
            parser.measure() < old(parser).measure(),
            !extended ==> *parser == after_first && e == first_expr,
            extended ==> binds_after(10, after_first.cur_kind()),
            cur_starts_expression(*old(parser)),
            simple_primary(*old(parser)) is Some && !next_read_fails(*old(parser))
                && !binds_after(9, next_kind(*old(parser)))
                ==> first_expr == simple_primary(*old(parser))->0 && stepped(*old(parser), after_first)
                    && after_first.cur_kind() == next_kind(*old(parser)),
        ensures
            top is Open || top == ExprParse::Parsed(Some(e.model()), parser.spot()),
            advanced(*old(parser), *parser),
            parser.measure() < old(parser).measure(),
            !extended ==> *parser == after_first && e == first_expr,
            extended ==> binds_after(10, after_first.cur_kind()),
        decreases parser.measure(),
    {
        let op = match parser.current_kind() {
            Some(TokenKind::LeftShift) => BinaryOp::LeftShift,
            Some(TokenKind::RightShift) => BinaryOp::RightShift,
            _ => {
                break;
            },
        };
        let ghost sb = parser.spot();
        parser.advance()?;
        match parse_addition(parser)? {
            Some(right) => {
                let location = parser.current_location();
                e = Expression::Binary(BinaryExpr { left: Box::new(e), operator: op, right: Box::new(right), location });
            },
            None => {},
        }
        extended = true;
    }
    Ok(Some(e))
}

/// Parse addition expression
fn parse_addition(parser: &mut Parser) -> (res: Result<Option<Expression>>)
    requires
        old(parser).wf(),
    ensures
        advanced(*old(parser), *final(parser)),
        res matches Ok(Some(_)) ==> final(parser).measure() < old(parser).measure(),
        !cur_starts_expression(*old(parser)) ==> (res matches Ok(None) && *final(parser) == *old(parser)),
        simple_primary(*old(parser)) is Some && !next_read_fails(*old(parser))
            && !binds_after(9, next_kind(*old(parser)))
            ==> res == Ok::<Option<Expression>, CompilerError>(simple_primary(*old(parser)))
                && stepped(*old(parser), *final(parser)),
        gives_expr(res, *final(parser), expr_at(old(parser).input(), old(parser).spot(), 9)),
    decreases old(parser).measure(), 9int,
{
    let ghost inp = parser.input();
    let ghost s0 = parser.spot();
    let ghost top = expr_at(inp, s0, 9);
    let first = match parse_multiplication(parser)? {
        Some(e) => e,
        None => {
            return Ok(None);
        },
    };
    let ghost after_first = *parser;
    let ghost first_expr = first;
    let mut e = first;
    let mut extended = false;
    loop
        invariant_except_break
            top is Open || binary_rest_at(inp, parser.spot(), e.model(), 9) == top,
        invariant
            parser.input() == inp,
            inp == old(parser).input(),
            top == expr_at(inp, old(parser).spot(), 9),
            advanced(*old(parser), *parser),
            parser.measure() < old(parser).measure(),
            !extended ==> *parser == after_first && e == first_expr,
            extended ==> binds_after(9, after_first.cur_kind()),
            cur_starts_expression(*old(parser)),
            simple_primary(*old(parser)) is Some && !next_read_fails(*old(parser))
                && !binds_after(8, next_kind(*old(parser)))
                ==> first_expr == simple_primary(*old(parser))->0 && stepped(*old(parser), after_first)
                    && after_first.cur_kind() == next_kind(*old(parser)),
        ensures
            top is Open || top == ExprParse::Parsed(Some(e.model()), parser.spot()),
            advanced(*old(parser), *parser),
            parser.measure() < old(parser).measure(),
            !extended ==> *parser == after_first && e == first_expr,
            extended ==> binds_after(9, after_first.cur_kind()),
        decreases parser.measure(),
    {
        let op = match parser.current_kind() {
            Some(TokenKind::Plus) => BinaryOp::Add,
            Some(TokenKind::Minus) => BinaryOp::Sub,
            _ => {
                break;
            },
        };
        let ghost sb = parser.spot();
        parser.advance()?;
        match parse_multiplication(parser)? {
            Some(right) => {
                let location = parser.current_location();
                e = Expression::Binary(BinaryExpr { left: Box::new(e), operator: op, right: Box::new(right), location });
            },
            None => {},
        }
        extended = true;
    }
    Ok(Some(e))
}

/// Parse multiplication expression
fn parse_multiplication(parser: &mut Parser) -> (res: Result<Option<Expression>>)
    requires
        old(parser).wf(),
    ensures
        advanced(*old(parser), *final(parser)),
        res matches Ok(Some(_)) ==> final(parser).measure() < old(parser).measure(),
        !cur_starts_expression(*old(parser)) ==> (res matches Ok(None) && *final(parser) == *old(parser)),
        simple_primary(*old(parser)) is Some && !next_read_fails(*old(parser))
            && !binds_after(8, next_kind(*old(parser)))
            ==> res == Ok::<Option<Expression>, CompilerError>(simple_primary(*old(parser)))
                && stepped(*old(parser), *final(parser)),
        gives_expr(res, *final(parser), expr_at(old(parser).input(), old(parser).spot(), 8)),
    decreases old(parser).measure(), 8int,
{
    let ghost inp = parser.input();
    let ghost s0 = parser.spot();
    let ghost top = expr_at(inp, s0, 8);
    let first = match parse_unary(parser)? {
        Some(e) => e,
        None => {
            return Ok(None);
        },
    };
    let ghost after_first = *parser;
    let ghost first_expr = first;
    let mut e = first;
    let mut extended = false;
    loop
        invariant_except_break
            top is Open || binary_rest_at(inp, parser.spot(), e.model(), 8) == top,
        invariant
            parser.input() == inp,
            inp == old(parser).input(),
            top == expr_at(inp, old(parser).spot(), 8),
            advanced(*old(parser), *parser),
            parser.measure() < old(parser).measure(),
            !extended ==> *parser == after_first && e == first_expr,
            extended ==> binds_after(8, after_first.cur_kind()),
            cur_starts_expression(*old(parser)),
            simple_primary(*old(parser)) is Some && !next_read_fails(*old(parser))
                && !binds_after(7, next_kind(*old(parser)))
                ==> first_expr == simple_primary(*old(parser))->0 && stepped(*old(parser), after_first)
                    && after_first.cur_kind() == next_kind(*old(parser)),
        ensures
            top is Open || top == ExprParse::Parsed(Some(e.model()), parser.spot()),
            advanced(*old(parser), *parser),
            parser.measure() < old(parser).measure(),
            !extended ==> *parser == after_first && e == first_expr,
            extended ==> binds_after(8, after_first.cur_kind()),
        decreases parser.measure(),
    {
        let op = match parser.current_kind() {
            Some(TokenKind::Star) => BinaryOp::Mul,
            Some(TokenKind::Slash) => BinaryOp::Div,
            Some(TokenKind::Percent) => BinaryOp::Mod,
            _ => {
                break;
            },
        };
        let ghost sb = parser.spot();
        parser.advance()?;
        match parse_unary(parser)? {
            Some(right) => {
                let location = parser.current_location();
                e = Expression::Binary(BinaryExpr { left: Box::new(e), operator: op, right: Box::new(right), location });
            },
            None => {},
        }
        extended = true;
    }
    Ok(Some(e))
}
/// Parse conditional expression (ternary operator)
fn parse_conditional(parser: &mut Parser) -> (res: Result<Option<Expression>>)
    requires
        old(parser).wf(),
    ensures
        advanced(*old(parser), *final(parser)),
        res matches Ok(Some(_)) ==> final(parser).measure() < old(parser).measure(),
        !cur_starts_expression(*old(parser)) ==> (res matches Ok(None) && *final(parser) == *old(parser)),
        simple_primary(*old(parser)) is Some && !next_read_fails(*old(parser))
            && !binds_after(18, next_kind(*old(parser)))
            ==> res == Ok::<Option<Expression>, CompilerError>(simple_primary(*old(parser)))
                && stepped(*old(parser), *final(parser)),
        gives_expr(res, *final(parser), expr_at(old(parser).input(), old(parser).spot(), 18)),
    decreases old(parser).measure(), 18int,
{
    let ghost inp = parser.input();
    let ghost s0 = parser.spot();
    assert(expr_at(inp, s0, 18) == conditional_at(inp, s0));
    let e = match parse_logical_or(parser)? {
        Some(e) => e,
        None => {
            return Ok(None);
        },
    };
    if parser.consume(&Token::Question)? {
        proof {
            assert(smaller(inp, parser.spot(), s0));
        }
        let true_expr = parse_expression(parser)?;
        parser.expect(&Token::Colon)?;
        proof {
            assert(smaller(inp, parser.spot(), s0));
        }
        let false_expr = parse_expression(parser)?;
        match (true_expr, false_expr) {
            (Some(t), Some(f)) => {
                let location = parser.current_location();
                Ok(Some(Expression::Conditional(ConditionalExpr {
                    condition: Box::new(e),
                    true_expr: Box::new(t),
                    false_expr: Box::new(f),
                    location,
                })))
            },
            _ => Ok(Some(e)),
        }
    } else {
        Ok(Some(e))
    }
}

/// The prefix operation a token stands for.
fn unary_op_for(k: TokenKind) -> (res: Option<UnaryOp>)
    ensures
        res is Some <==> is_unary_operator(k),
        res == unary_op_of(k),
{
    match k {
        TokenKind::Not => Some(UnaryOp::Not),
        TokenKind::Tilde => Some(UnaryOp::BitNot),
        TokenKind::Minus => Some(UnaryOp::Neg),
        TokenKind::Plus => Some(UnaryOp::Pos),
        TokenKind::Star => Some(UnaryOp::Deref),
        TokenKind::Ampersand => Some(UnaryOp::AddrOf),
        _ => None,
    }
}

/// Parse unary expression
fn parse_unary(parser: &mut Parser) -> (res: Result<Option<Expression>>)
    requires
        old(parser).wf(),
    ensures
        advanced(*old(parser), *final(parser)),
        res matches Ok(Some(_)) ==> final(parser).measure() < old(parser).measure(),
        !cur_starts_expression(*old(parser)) ==> (res matches Ok(None) && *final(parser) == *old(parser)),
        simple_primary(*old(parser)) is Some && !next_read_fails(*old(parser))
            && !binds_after(7, next_kind(*old(parser)))
            ==> res == Ok::<Option<Expression>, CompilerError>(simple_primary(*old(parser)))
                && stepped(*old(parser), *final(parser)),
        gives_expr(res, *final(parser), expr_at(old(parser).input(), old(parser).spot(), 7)),
    decreases old(parser).measure(), 7int,
{
    let ghost inp = parser.input();
    let ghost s0 = parser.spot();
    assert(expr_at(inp, s0, 7) == unary_at(inp, s0));
    let op = match parser.current_kind() {
        Some(k) => unary_op_for(k),
        None => None,
    };
    match op {
        Some(op) => {
            parser.advance()?;
            proof {
                assert(smaller(inp, parser.spot(), s0));
            }
            match parse_unary(parser)? {
                Some(operand) => {
                    let location = parser.current_location();
                    return Ok(Some(Expression::Unary(UnaryExpr { operator: op, operand: Box::new(operand), location })));
                },
                None => {
                    proof {
                        assert(smaller(inp, parser.spot(), s0));
                    }
                },
            }
        },
        None => {},
    }
    parse_postfix(parser)
}

/// Parse the expressions of a list up to, not including, a closing token: `a, b, c`.
pub(crate) fn parse_expression_list(parser: &mut Parser, close: &Token) -> (res: Result<Vec<Expression>>)
    requires
        old(parser).wf(),
    ensures
        advanced(*old(parser), *final(parser)),
        gives_exprs(res, *final(parser), exprs_at(old(parser).input(), old(parser).spot(), close.spec_kind())),
    decreases old(parser).measure(), 21int,
{
    let ghost inp = parser.input();
    let ghost goal = exprs_at(inp, parser.spot(), close.spec_kind());
    let mut items: Vec<Expression> = Vec::new();
    proof {
        lemma_expr_models_push(items@, Expression::Literal(Literal::Null));
    }
    if !parser.check(close) {
        loop
            invariant_except_break
                goal is Open || expr_list_at(inp, parser.spot(), expr_models(items@)) == goal,
            invariant
                advanced(*old(parser), *parser),
                parser.input() == inp,
                inp == old(parser).input(),
                goal == exprs_at(inp, old(parser).spot(), close.spec_kind()),
                old(parser).cur_kind() != Some(close.spec_kind()),
                goal == expr_list_at(inp, old(parser).spot(), Seq::empty()),
            ensures
                advanced(*old(parser), *parser),
                goal is Open || goal == ExprsParse::Parsed(expr_models(items@), parser.spot()),
            decreases parser.measure(),
        {
            let ghost sb = parser.spot();
            match parse_expression(parser)? {
                Some(e) => {
                    proof {
                        lemma_expr_models_push(items@, e);
                    }
                    items.push(e);
                },
                None => {},
            }
            if !parser.consume(&Token::Comma)? {
                break;
            }
            proof {
                assert(smaller(inp, parser.spot(), sb));
            }
        }
    }
    Ok(items)
}

/// Parse the field initializers of a struct literal up to, not including, the closing `}`.
fn parse_field_inits(parser: &mut Parser) -> (res: Result<Vec<FieldInit>>)
    requires
        old(parser).wf(),
    ensures
        advanced(*old(parser), *final(parser)),
        match (if old(parser).cur_kind() == Some(TokenKind::RightBrace) {
            ListParse::Parsed(Seq::empty(), old(parser).spot())
        } else {
            field_init_list_at(old(parser).input(), old(parser).spot(), Seq::empty())
        }) {
            ListParse::Failed(f) => res is Err && fails_with(res->Err_0, f),
            ListParse::Open => true,
            ListParse::Parsed(fs, sp) => final(parser).spot() == sp && (res matches Ok(v) && field_init_models(v@) == fs),
        },
    decreases old(parser).measure(), 21int,
{
    let ghost inp = parser.input();
    let ghost goal = field_init_list_at(inp, parser.spot(), Seq::empty());
    let mut fields: Vec<FieldInit> = Vec::new();
    proof {
        lemma_field_init_models_push(fields@, arbitrary());
    }
    if !parser.check(&Token::RightBrace) {
        loop
            invariant_except_break
                goal is Open || field_init_list_at(inp, parser.spot(), field_init_models(fields@)) == goal,
            invariant
                advanced(*old(parser), *parser),
                parser.input() == inp,
                inp == old(parser).input(),
                goal == field_init_list_at(inp, old(parser).spot(), Seq::empty()),
                old(parser).cur_kind() != Some(TokenKind::RightBrace),
            ensures
                advanced(*old(parser), *parser),
                goal is Open || goal == ListParse::Parsed(field_init_models(fields@), parser.spot()),
            decreases parser.measure(),
        {
            let ghost sb = parser.spot();
            match cur_name(parser) {
                Some(name) => {
                    parser.advance()?;
                    parser.expect(&Token::Colon)?;
                    proof {
                        assert(smaller(inp, parser.spot(), sb));
                    }
                    match parse_expression(parser)? {
                        Some(value) => {
                            let location = parser.current_location();
                            let init = FieldInit { name, value, location };
                            proof {
                                lemma_field_init_models_push(fields@, init);
                            }
                            fields.push(init);
                        },
                        None => {},
                    }
                },
                None => {},
            }
            if !parser.consume(&Token::Comma)? {
                break;
            }
            proof {
                assert(smaller(inp, parser.spot(), sb));
            }
        }
    }
    Ok(fields)
}

/// The name the current token carries, if it is an identifier.
pub fn cur_name(parser: &Parser) -> (res: Option<String>)
    ensures
        res == cur_identifier(*parser),
        res is Some ==> parser.cur_kind() == Some(TokenKind::Identifier),
{
    match parser.peek() {
        Some(t) => match &t.token {
            Token::Identifier(name) => Some(name.clone()),
            _ => None,
        },
        None => None,
    }
}

/// Parse postfix expression
fn parse_postfix(parser: &mut Parser) -> (res: Result<Option<Expression>>)
    requires
        old(parser).wf(),
    ensures
        advanced(*old(parser), *final(parser)),
        res matches Ok(Some(_)) ==> final(parser).measure() < old(parser).measure(),
        !cur_starts_primary(*old(parser)) ==> (res matches Ok(None) && *final(parser) == *old(parser)),
        simple_primary(*old(parser)) is Some && !next_read_fails(*old(parser))
            && !binds_after(6, next_kind(*old(parser)))
            ==> res == Ok::<Option<Expression>, CompilerError>(simple_primary(*old(parser)))
                && stepped(*old(parser), *final(parser)),
        gives_expr(res, *final(parser), expr_at(old(parser).input(), old(parser).spot(), 6)),
    decreases old(parser).measure(), 6int,
{
    let ghost inp = parser.input();
    let ghost s0 = parser.spot();
    let ghost top = expr_at(inp, s0, 6);
    assert(expr_at(inp, s0, 5) == primary_at(inp, s0));
    let first = match parse_primary(parser)? {
        Some(e) => e,
        None => {
            return Ok(None);
        },
    };
    let ghost after_first = *parser;
    let ghost first_expr = first;
    let mut e = first;
    let mut extended = false;
    loop
        invariant_except_break
            top is Open || postfix_rest_at(inp, parser.spot(), e.model()) == top,
        invariant
            parser.input() == inp,
            inp == old(parser).input(),
            top == expr_at(inp, old(parser).spot(), 6),
            advanced(*old(parser), *parser),
            parser.measure() < old(parser).measure(),
            !extended ==> *parser == after_first && e == first_expr,
            extended ==> binds_after(6, after_first.cur_kind()),
            cur_starts_primary(*old(parser)),
            simple_primary(*old(parser)) is Some && !next_read_fails(*old(parser))
                && !binds_after(5, next_kind(*old(parser)))
                ==> first_expr == simple_primary(*old(parser))->0 && stepped(*old(parser), after_first)
                    && after_first.cur_kind() == next_kind(*old(parser)),
        ensures
            top is Open || top == ExprParse::Parsed(Some(e.model()), parser.spot()),
            advanced(*old(parser), *parser),
            parser.measure() < old(parser).measure(),
            !extended ==> *parser == after_first && e == first_expr,
            extended ==> binds_after(6, after_first.cur_kind()),
        decreases parser.measure(),
    {
        let ghost sb = parser.spot();
        match parser.current_kind() {
            Some(TokenKind::ColonColon) => {
                parser.advance()?;
                let method_name: String = match parser.current_kind() {
                    Some(TokenKind::Identifier) => {
                        let name = match cur_name(parser) {
                            Some(n) => n,
                            None => String::new(),
                        };
                        parser.advance()?;
                        name
                    },
                    Some(TokenKind::New) => {
                        parser.advance()?;
                        String::from_str("new")
                    },
                    _ => {
                        let loc = parser.current_location();
                        return Err(CompilerError::syntax(loc.line, loc.column, "Expected method name after '::'"));
                    },
                };
                if parser.consume(&Token::LeftParen)? {
                    let arguments = parse_expression_list(parser, &Token::RightParen)?;
                    parser.expect(&Token::RightParen)?;
                    let location = parser.current_location();
                    let method_arguments = arguments.clone();
                    e = Expression::Call(CallExpr {
                        callee: Box::new(Expression::MethodCall(MethodCallExpr {
                            object: Box::new(e),
                            method: method_name,
                            type_args: Vec::new(),
                            arguments: method_arguments,
                            location,
                        })),
                        type_args: Vec::new(),
                        arguments,
                        location,
                    });
                } else {
                    let location = parser.current_location();
                    e = Expression::MethodCall(MethodCallExpr {
                        object: Box::new(e),
                        method: method_name,
                        type_args: Vec::new(),
                        arguments: Vec::new(),
                        location,
                    });
                }
            },
            Some(TokenKind::LeftParen) => {
                parser.advance()?;
                let arguments = parse_expression_list(parser, &Token::RightParen)?;
                parser.expect(&Token::RightParen)?;
                let location = parser.current_location();
                e = Expression::Call(CallExpr { callee: Box::new(e), type_args: Vec::new(), arguments, location });
            },
            Some(TokenKind::LeftBracket) => {
                parser.advance()?;
                let index = parse_expression(parser)?;
                parser.expect(&Token::RightBracket)?;
                match index {
                    Some(index) => {
                        let location = parser.current_location();
                        e = Expression::IndexAccess(IndexAccessExpr { object: Box::new(e), index: Box::new(index), location });
                    },
                    None => {},
                }
            },
            Some(TokenKind::Dot) => {
                parser.advance()?;
                match cur_name(parser) {
                    Some(field) => {
                        parser.advance()?;
                        let location = parser.current_location();
                        e = Expression::FieldAccess(FieldAccessExpr { object: Box::new(e), field, location });
                    },
                    None => {
                        let loc = parser.current_location();
                        return Err(CompilerError::syntax(loc.line, loc.column, "Expected field name after '.'"));
                    },
                }
            },
            _ => {
                break;
            },
        }
        proof {
            assert(smaller(inp, parser.spot(), sb));
            assert(models(Seq::<Type>::empty()) =~= Seq::<TypeModel>::empty());
        }
        extended = true;
    }
    Ok(Some(e))
}

/// The literal a token stands for.
fn literal_from_token(t: &Token) -> (res: Option<Literal>)
    ensures
        res == literal_of(*t),
{
    match t {
        Token::Integer(n) => Some(Literal::Integer(*n)),
        Token::Float(s) => Some(Literal::Float(s.clone())),
        Token::String(s) => Some(Literal::String(s.clone())),
        Token::Char(c) => Some(Literal::Char(*c)),
        Token::True => Some(Literal::Boolean(true)),
        Token::False => Some(Literal::Boolean(false)),
        Token::Null => Some(Literal::Null),
        _ => None,
    }
}

/// What follows a name in a primary expression: `.` and a field name for a field access, `{`,
/// field values and `}` for a struct literal, or nothing for the name alone.
fn parse_named_primary(parser: &mut Parser, name: String) -> (res: Result<Option<Expression>>)
    requires
        old(parser).wf(),
    ensures
        advanced(*old(parser), *final(parser)),
        res is Ok ==> res matches Ok(Some(_)),
        old(parser).cur_kind() != Some(TokenKind::Dot) && old(parser).cur_kind() != Some(TokenKind::LeftBrace)
            ==> res == Ok::<Option<Expression>, CompilerError>(Some(Expression::Variable(name))) && *final(parser) == *old(parser),
        !name@.contains('.') ==> gives_expr(res, *final(parser), named_primary_at(old(parser).input(), old(parser).spot(), name@)),
    decreases old(parser).measure(), 5int,
{
    let ghost inp = parser.input();
    let ghost s1 = parser.spot();
    let ghost first_name = name;
    let mut full_name = name;
    let mut is_field_access = false;
    let mut extended = false;
    loop
        invariant
            parser.input() == inp,
            inp == old(parser).input(),
            s1 == old(parser).spot(),
            first_name == name,
            advanced(*old(parser), *parser),
            !first_name@.contains('.') ==> !extended && !is_field_access,
            !extended ==> *parser == *old(parser) && full_name == first_name,
            extended ==> old(parser).cur_kind() == Some(TokenKind::Dot),
        ensures
            advanced(*old(parser), *parser),
            first_name == name,
            parser.input() == inp,
            s1 == old(parser).spot(),
            !extended ==> *parser == *old(parser) && full_name == first_name,
            !extended ==> consume_at(inp, s1, TokenKind::Dot) == Ok::<(bool, Spot), Failure>((false, s1)),
            extended ==> old(parser).cur_kind() == Some(TokenKind::Dot),
            !first_name@.contains('.') ==> !extended,
        decreases parser.measure(),
    {
        if !parser.consume(&Token::Dot)? {
            break;
        }
        let ghost s2 = parser.spot();
        match cur_name(parser) {
            Some(part) => {
                proof {
                    assert(cur_identifier_at(s2) == Some(part@));
                }
                if !is_field_access && !crate::text::contains_char(full_name.as_str(), '.') {
                    is_field_access = true;
                }
                if is_field_access {
                    parser.advance()?;
                    let location = parser.current_location();
                    proof {
                        assert(!first_name@.contains('.') ==> full_name == name && parser.spot() == read_at(inp, s2)
                            && named_primary_at(inp, s1, name@) == ExprParse::Parsed(Some(ExprModel::FieldAccess(
                                Box::new(ExprModel::Variable(name@)), part@, location_of(read_at(inp, s2).current))), read_at(inp, s2)));
                    }
                    proof {
                        assert(Expression::Variable(full_name).model() == ExprModel::Variable(full_name@));
                    }
                    let r = Expression::FieldAccess(FieldAccessExpr {
                        object: Box::new(Expression::Variable(full_name)),
                        field: part,
                        location,
                    });
                    proof {
                        assert(r.model() == ExprModel::FieldAccess(Box::new(ExprModel::Variable(full_name@)), part@, location));
                    }
                    return Ok(Some(r));
                } else {
                    full_name = concat3(full_name.as_str(), ".", part.as_str());
                    parser.advance()?;
                }
            },
            None => {
                let loc = parser.current_location();
                return Err(CompilerError::syntax(loc.line, loc.column, "Expected identifier after '.'"));
            },
        }
        extended = true;
    }
    proof {
        assert(models(Seq::<Type>::empty()) =~= Seq::<TypeModel>::empty());
    }
    let ghost before_brace = parser.spot();
    if parser.consume(&Token::LeftBrace)? {
        proof {
            assert(smaller(inp, parser.spot(), s1));
            if !name@.contains('.') {
                assert(before_brace == s1);
                assert(full_name == name);
            }
        }
        let fields = parse_field_inits(parser)?;
        parser.expect(&Token::RightBrace)?;
        let location = parser.current_location();
        let struct_type = Type::Struct(StructType { name: full_name, type_args: Vec::new(), location });
        let r = Expression::Struct(StructExpr { struct_type, fields, location });
        proof {
            assert(struct_type.model() == TypeModel::Struct(full_name@, Seq::empty(), location));
            assert(r.model() == ExprModel::Struct(TypeModel::Struct(full_name@, Seq::empty(), location),
                field_init_models(fields@), location));
        }
        Ok(Some(r))
    } else {
        let r = Expression::Variable(full_name);
        proof {
            assert(r.model() == ExprModel::Variable(full_name@));
            if !name@.contains('.') {
                assert(full_name == name);
                assert(parser.spot() == s1);
                assert(consume_at(inp, s1, TokenKind::Dot) == Ok::<(bool, Spot), Failure>((false, s1)));
                assert(named_primary_at(inp, s1, name@) == ExprParse::Parsed(Some(ExprModel::Variable(name@)), s1));
            }
        }
        Ok(Some(r))
    }
}

/// Parse primary expression
fn parse_primary(parser: &mut Parser) -> (res: Result<Option<Expression>>)
    requires
        old(parser).wf(),
    ensures
        advanced(*old(parser), *final(parser)),
        res matches Ok(Some(_)) ==> final(parser).measure() < old(parser).measure(),
        !cur_starts_primary(*old(parser)) ==> (res matches Ok(None) && *final(parser) == *old(parser)),
        simple_primary(*old(parser)) is Some && !next_read_fails(*old(parser))
            && !binds_after(5, next_kind(*old(parser)))
            ==> res == Ok::<Option<Expression>, CompilerError>(simple_primary(*old(parser)))
                && stepped(*old(parser), *final(parser)),
        gives_expr(res, *final(parser), primary_at(old(parser).input(), old(parser).spot())),
    decreases old(parser).measure(), 5int,
{
    let ghost inp = parser.input();
    let ghost s0 = parser.spot();
    let ghost top = primary_at(inp, s0);
    let literal: Option<Literal> = match parser.peek() {
        Some(t) => literal_from_token(&t.token),
        None => {
            return Ok(None);
        },
    };
    match literal {
        Some(l) => {
            parser.advance()?;
            return Ok(Some(Expression::Literal(l)));
        },
        None => {},
    }
    match parser.current_kind() {
        Some(TokenKind::Identifier) => {
            let name = match cur_name(parser) {
                Some(n) => n,
                None => String::new(),
            };
            parser.advance()?;
            proof {
                assert(smaller(inp, parser.spot(), s0));
            }
            parse_named_primary(parser, name)
        },
        Some(TokenKind::LeftParen) => {
            parser.advance()?;
            proof {
                assert(smaller(inp, parser.spot(), s0));
            }
            let expr = parse_expression(parser)?;
            parser.expect(&Token::RightParen)?;
            Ok(expr)
        },
        Some(TokenKind::LeftBracket) => parse_array_literal(parser),
        Some(TokenKind::MapKw) => parse_map_literal(parser),
        Some(TokenKind::Struct) => parse_struct_literal(parser),
        Some(TokenKind::Fn) => parse_lambda(parser),
        Some(TokenKind::Match) => parse_match_expression(parser),
        Some(TokenKind::If) => parse_if_expression(parser),
        Some(TokenKind::For) => parse_for_expression(parser),
        Some(TokenKind::While) => parse_while_expression(parser),
        Some(TokenKind::Try) => parse_try_expression(parser),
        Some(TokenKind::Select) => parse_select_expression(parser),
        Some(TokenKind::Go) => parse_go_expression(parser),
        Some(TokenKind::New) => parse_new_expression(parser),
        _ => Ok(None),
    }
}

/// Parse array literal
fn parse_array_literal(parser: &mut Parser) -> (res: Result<Option<Expression>>)
    requires
        old(parser).wf(),
    ensures
        advanced(*old(parser), *final(parser)),
        res matches Ok(Some(_)) ==> final(parser).measure() < old(parser).measure(),
        gives_expr(res, *final(parser), array_literal_at(old(parser).input(), old(parser).spot())),
    decreases old(parser).measure(), 4int,
{
    let ghost inp = parser.input();
    let ghost s0 = parser.spot();
    parser.expect(&Token::LeftBracket)?;
    proof {
        assert(smaller(inp, parser.spot(), s0));
    }
    let elements = parse_expression_list(parser, &Token::RightBracket)?;
    parser.expect(&Token::RightBracket)?;
    let location = parser.current_location();
    Ok(Some(Expression::Array(ArrayExpr { elements, location })))
}

/// Parse map literal
fn parse_map_literal(parser: &mut Parser) -> (res: Result<Option<Expression>>)
    requires
        old(parser).wf(),
    ensures
        advanced(*old(parser), *final(parser)),
        res matches Ok(Some(_)) ==> final(parser).measure() < old(parser).measure(),
        gives_expr(res, *final(parser), map_literal_at(old(parser).input(), old(parser).spot())),
    decreases old(parser).measure(), 4int,
{
    let ghost inp = parser.input();
    let ghost s0 = parser.spot();
    parser.expect(&Token::MapKw)?;
    parser.expect(&Token::LeftBrace)?;
    let ghost s2 = parser.spot();
    proof {
        assert(smaller(inp, s2, s0));
    }
    let ghost top = map_literal_at(inp, s0);
    let ghost goal = if kind_of(s2.current) == Some(TokenKind::RightBrace) {
        ListParse::Parsed(Seq::empty(), s2)
    } else {
        map_entries_at(inp, s2, Seq::empty())
    };
    let mut entries: Vec<MapEntry> = Vec::new();
    proof {
        lemma_entry_models_push(entries@, arbitrary());
        assert(top == map_close(inp, goal));
    }
    if !parser.check(&Token::RightBrace) {
        loop
            invariant_except_break
                goal is Open || map_entries_at(inp, parser.spot(), entry_models(entries@)) == goal,
            invariant
                advanced(*old(parser), *parser),
                parser.measure() < old(parser).measure(),
                parser.input() == inp,
                inp == old(parser).input(),
                s0 == old(parser).spot(),
                goal == map_entries_at(inp, s2, Seq::empty()),
                top == map_literal_at(inp, s0),
                top == map_close(inp, goal),
            ensures
                advanced(*old(parser), *parser),
                parser.measure() < old(parser).measure(),
                goal is Open || goal == ListParse::Parsed(entry_models(entries@), parser.spot()),
            decreases parser.measure(),
        {
            let ghost sb = parser.spot();
            let key = parse_expression(parser)?;
            parser.expect(&Token::Colon)?;
            proof {
                assert(smaller(inp, parser.spot(), sb));
            }
            let value = parse_expression(parser)?;
            match (key, value) {
                (Some(key), Some(value)) => {
                    let location = parser.current_location();
                    let entry = MapEntry { key, value, location };
                    proof {
                        lemma_entry_models_push(entries@, entry);
                    }
                    entries.push(entry);
                },
                _ => {},
            }
            if !parser.consume(&Token::Comma)? {
                break;
            }
            proof {
                assert(smaller(inp, parser.spot(), sb));
            }
        }
    }
    parser.expect(&Token::RightBrace)?;
    let location = parser.current_location();
    Ok(Some(Expression::MapLiteral(MapExpr { entries, location })))
}

/// Parse struct literal
fn parse_struct_literal(parser: &mut Parser) -> (res: Result<Option<Expression>>)
    requires
        old(parser).wf(),
    ensures
        advanced(*old(parser), *final(parser)),
        res matches Ok(Some(_)) ==> final(parser).measure() < old(parser).measure(),
    decreases old(parser).measure(), 4int,
{
    parser.expect(&Token::Struct)?;
    let struct_type = match parse_type(parser)? {
        Some(t) => t,
        None => {
            let loc = parser.current_location();
            return Err(CompilerError::syntax(loc.line, loc.column, "Expected struct type"));
        },
    };
    parser.expect(&Token::LeftBrace)?;
    let fields = parse_field_inits(parser)?;
    parser.expect(&Token::RightBrace)?;
    let location = parser.current_location();
    Ok(Some(Expression::Struct(StructExpr { struct_type, fields, location })))
}

/// The parameters of a lambda after those in `acc`: each a name, `:` and a type (a name without
/// a type adds nothing), separated by `,`; the list ends where no `,` follows.
pub open spec fn lambda_params_at(inp: TokenInput, s: Spot, acc: Seq<ParamModel>) -> Parsed<Seq<ParamModel>>
    decreases measure_at(inp, s),
{
    let step: Parsed<Seq<ParamModel>> = match cur_identifier_at(s) {
        None => Parsed::Done(acc, s),
        Some(n) => if read_fails_at(inp, s) {
            Parsed::Failed(lexical_failure(inp))
        } else {
            match expect_at(inp, read_at(inp, s), Token::Colon) {
                Err(f) => Parsed::Failed(f),
                Ok(s2) => match type_at(inp, s2) {
                    TypeParse::Failed(f) => Parsed::Failed(f),
                    TypeParse::Parsed(None, s3) => Parsed::Done(acc, s3),
                    TypeParse::Parsed(Some(t), s3) => Parsed::Done(acc.push(ParamModel {
                        name: n, param_type: t, has_default: false, location: location_of(s3.current) }), s3),
                },
            }
        },
    };
    match step {
        Parsed::Failed(f) => Parsed::Failed(f),
        Parsed::Done(acc2, s4) => match consume_at(inp, s4, TokenKind::Comma) {
            Err(f) => Parsed::Failed(f),
            Ok((false, s5)) => Parsed::Done(acc2, s5),
            Ok((true, s5)) => if smaller(inp, s5, s) {
                lambda_params_at(inp, s5, acc2)
            } else {
                Parsed::Failed(stalled())
            },
        },
    }
}

/// The signature of a lambda: `fn`, its parameters in parentheses, then `->` and a return
/// type if any; the parameters and the return type.
pub open spec fn lambda_sig_at(inp: TokenInput, s: Spot) -> Parsed<(Seq<ParamModel>, Option<TypeModel>)> {
    match expect_at(inp, s, Token::Fn) {
        Err(f) => Parsed::Failed(f),
        Ok(s1) => match expect_at(inp, s1, Token::LeftParen) {
            Err(f) => Parsed::Failed(f),
            Ok(s2) => {
                let params = if kind_of(s2.current) == Some(TokenKind::RightParen) {
                    Parsed::Done(Seq::empty(), s2)
                } else {
                    lambda_params_at(inp, s2, Seq::empty())
                };
                match params {
                    Parsed::Failed(f) => Parsed::Failed(f),
                    Parsed::Done(ps, s3) => match expect_at(inp, s3, Token::RightParen) {
                        Err(f) => Parsed::Failed(f),
                        Ok(s4) => match consume_at(inp, s4, TokenKind::Arrow) {
                            Err(f) => Parsed::Failed(f),
                            Ok((false, s5)) => Parsed::Done((ps, None), s5),
                            Ok((true, s5)) => match type_at(inp, s5) {
                                TypeParse::Failed(f) => Parsed::Failed(f),
                                TypeParse::Parsed(r, s6) => Parsed::Done((ps, r), s6),
                            },
                        },
                    },
                }
            },
        },
    }
}

/// Parse the parameters of a lambda, after its `(`, up to, not including, the `)`.
fn parse_lambda_params(parser: &mut Parser) -> (res: Result<Vec<Parameter>>)
    requires
        old(parser).wf(),
    ensures
        advanced(*old(parser), *final(parser)),
        match lambda_params_at(old(parser).input(), old(parser).spot(), Seq::empty()) {
            Parsed::Failed(f) => res is Err && fails_with(res->Err_0, f),
            Parsed::Done(ps, sp) => final(parser).spot() == sp && (res matches Ok(v) && param_models(v@) == ps),
        },
{
    let ghost inp = parser.input();
    let ghost goal = lambda_params_at(inp, parser.spot(), Seq::empty());
    let mut parameters: Vec<Parameter> = Vec::new();
    proof {
        assert(param_models(parameters@) =~= Seq::<ParamModel>::empty());
    }
    loop
        invariant_except_break
            lambda_params_at(inp, parser.spot(), param_models(parameters@)) == goal,
        invariant
            advanced(*old(parser), *parser),
            parser.input() == inp,
            inp == old(parser).input(),
            goal == lambda_params_at(inp, old(parser).spot(), Seq::empty()),
        ensures
            advanced(*old(parser), *parser),
            goal == Parsed::Done(param_models(parameters@), parser.spot()),
        decreases parser.measure(),
    {
        let ghost sp = parser.spot();
        match cur_name(parser) {
            Some(name) => {
                parser.advance()?;
                parser.expect(&Token::Colon)?;
                match parse_type(parser)? {
                    Some(param_type) => {
                        let location = parser.current_location();
                        let p = Parameter { name, param_type, default_value: None, location };
                        proof {
                            lemma_param_models_push(parameters@, p);
                        }
                        parameters.push(p);
                    },
                    None => {},
                }
            },
            None => {},
        }
        if !parser.consume(&Token::Comma)? {
            break;
        }
        proof {
            assert(smaller(inp, parser.spot(), sp));
        }
    }
    Ok(parameters)
}

/// Parse lambda expression
fn parse_lambda(parser: &mut Parser) -> (res: Result<Option<Expression>>)
    requires
        old(parser).wf(),
    ensures
        advanced(*old(parser), *final(parser)),
        res matches Ok(Some(_)) ==> final(parser).measure() < old(parser).measure(),
        match lambda_sig_at(old(parser).input(), old(parser).spot()) {
            Parsed::Failed(f) => res is Err && fails_with(res->Err_0, f),
            Parsed::Done((ps, r), s6) => match expr_at(old(parser).input(), s6, 20) {
                ExprParse::Failed(f) => res is Err && fails_with(res->Err_0, f),
                ExprParse::Open => res matches Ok(Some(Expression::Lambda(l)))
                    ==> param_models(l.parameters@) == ps && opt_type_model(l.return_type) == r,
                ExprParse::Parsed(None, s7) => res == Ok::<Option<Expression>, CompilerError>(None) && final(parser).spot() == s7,
                ExprParse::Parsed(Some(e), s7) => final(parser).spot() == s7 && (res matches Ok(Some(Expression::Lambda(l)))
                    && param_models(l.parameters@) == ps && opt_type_model(l.return_type) == r
                    && l.body.model() == e && l.location == location_of(s7.current)),
            },
        },
    decreases old(parser).measure(), 4int,
{
    let ghost inp = parser.input();
    let ghost s0 = parser.spot();
    parser.expect(&Token::Fn)?;
    parser.expect(&Token::LeftParen)?;
    let parameters = if !parser.check(&Token::RightParen) {
        parse_lambda_params(parser)?
    } else {
        Vec::new()
    };
    proof {
        assert(param_models(Seq::<Parameter>::empty()) =~= Seq::<ParamModel>::empty());
    }
    parser.expect(&Token::RightParen)?;
    let return_type = if parser.consume(&Token::Arrow)? {
        parse_type(parser)?
    } else {
        None
    };
    let ghost s6 = parser.spot();
    proof {
        assert(lambda_sig_at(inp, s0) == Parsed::Done((param_models(parameters@), opt_type_model(return_type)), s6));
    }
    match parse_expression(parser)? {
        Some(body) => {
            let location = parser.current_location();
            Ok(Some(Expression::Lambda(LambdaExpr { parameters, return_type, body: Box::new(body), location })))
        },
        None => Ok(None),
    }
}

/// A match arm can start with the current token even without a comma before it.
fn starts_arm(parser: &Parser) -> (res: bool)
    ensures
        res == (parser.cur_kind() matches Some(k) && (k == TokenKind::Integer || k == TokenKind::Float
            || k == TokenKind::String || k == TokenKind::Identifier || k == TokenKind::Underscore
            || k == TokenKind::LeftParen)),
{
    match parser.current_kind() {
        Some(TokenKind::Integer) | Some(TokenKind::Float) | Some(TokenKind::String) | Some(TokenKind::Identifier)
        | Some(TokenKind::Underscore) | Some(TokenKind::LeftParen) => true,
        _ => false,
    }
}

/// Parse match expression
fn parse_match_expression(parser: &mut Parser) -> (res: Result<Option<Expression>>)
    requires
        old(parser).wf(),
    ensures
        advanced(*old(parser), *final(parser)),
        res matches Ok(Some(_)) ==> final(parser).measure() < old(parser).measure(),
    decreases old(parser).measure(), 4int,
{
    parser.expect(&Token::Match)?;
    let expr = if parser.check(&Token::LeftBrace) {
        None
    } else {
        match parse_expression(parser)? {
            Some(e) => Some(e),
            None => {
                let loc = parser.current_location();
                return Err(CompilerError::syntax(loc.line, loc.column, "Expected expression after 'match'"));
            },
        }
    };
    parser.expect(&Token::LeftBrace)?;
    let has_expr = expr.is_some();
    let mut arms: Vec<MatchArm> = Vec::new();
    loop
        invariant
            advanced(*old(parser), *parser),
            parser.measure() < old(parser).measure(),
        decreases parser.measure(),
    {
        if parser.check(&Token::RightBrace) {
            break;
        }
        if has_expr {
            let pattern = match parse_pattern_or(parser)? {
                Some(p) => p,
                None => {
                    break;
                },
            };
            let guard = if parser.consume(&Token::If)? {
                parse_expression(parser)?
            } else {
                None
            };
            parser.expect(&Token::Arrow)?;
            match parse_expression(parser)? {
                Some(body) => {
                    let location = parser.current_location();
                    arms.push(MatchArm { pattern, guard, body, location });
                },
                None => {},
            }
        } else {
            let guard = if parser.check(&Token::LeftParen) {
                parser.advance()?;
                let g = parse_expression(parser)?;
                parser.expect(&Token::RightParen)?;
                g
            } else if parser.check(&Token::Underscore) {
                parser.advance()?;
                None
            } else {
                parse_expression(parser)?
            };
            parser.expect(&Token::Arrow)?;
            match parse_expression(parser)? {
                Some(body) => {
                    let location = parser.current_location();
                    arms.push(MatchArm { pattern: Pattern::Wildcard, guard, body, location });
                },
                None => {},
            }
        }
        if parser.consume(&Token::Comma)? {
            continue;
        }
        if parser.check(&Token::RightBrace) {
            break;
        }
        if starts_arm(parser) {
            continue;
        }
        break;
    }
    parser.expect(&Token::RightBrace)?;
    let subject = match expr {
        Some(e) => e,
        None => Expression::Literal(Literal::Boolean(true)),
    };
    let location = parser.current_location();
    Ok(Some(Expression::Match(MatchExpr { expr: Box::new(subject), arms, location })))
}

/// What parsing a pattern from a spot gives: a failure, or the pattern found (if any) and where
/// the parser then stands.
pub enum PatternParse {
    Failed(Failure),
    Parsed(Option<PatternModel>, Spot),
}

/// What parsing a list of patterns from a spot gives: a failure, or the patterns found and where
/// the parser then stands.
pub enum PatternsParse {
    Failed(Failure),
    Parsed(Seq<PatternModel>, Spot),
}

/// A parser that gave `res` and stands at `p` did what `o` says.
pub open spec fn gives_pattern(res: Result<Option<Pattern>>, p: Parser, o: PatternParse) -> bool {
    match o {
        PatternParse::Failed(f) => res is Err && fails_with(res->Err_0, f),
        PatternParse::Parsed(m, sp) => p.spot() == sp && match m {
            None => res == Ok::<Option<Pattern>, CompilerError>(None),
            Some(m) => res matches Ok(Some(pt)) && pt.model() == m,
        },
    }
}

/// A parser that gave `res` and stands at `p` did what `o` says.
pub open spec fn gives_patterns(res: Result<Vec<Pattern>>, p: Parser, o: PatternsParse) -> bool {
    match o {
        PatternsParse::Failed(f) => res is Err && fails_with(res->Err_0, f),
        PatternsParse::Parsed(ps, sp) => p.spot() == sp && (res matches Ok(v) && pattern_models(v@) == ps),
    }
}

/// The pattern that alternatives make: one alone is itself, two or more an or-pattern.
pub open spec fn alternatives_of(o: PatternsParse) -> PatternParse {
    match o {
        PatternsParse::Failed(f) => PatternParse::Failed(f),
        PatternsParse::Parsed(ps, s) => if ps.len() == 1 {
            PatternParse::Parsed(Some(ps[0]), s)
        } else {
            PatternParse::Parsed(Some(PatternModel::Or(ps)), s)
        },
    }
}

/// A pattern: a primary pattern, then more of them, each after `|`.
pub open spec fn pattern_or_at(inp: TokenInput, s: Spot) -> PatternParse
    decreases measure_at(inp, s), 2int,
{
    match pattern_primary_at(inp, s) {
        PatternParse::Failed(f) => PatternParse::Failed(f),
        PatternParse::Parsed(None, s1) => PatternParse::Parsed(None, s1),
        PatternParse::Parsed(Some(first), s1) => if smaller(inp, s1, s) {
            alternatives_of(alternatives_rest_at(inp, s1, seq![first]))
        } else {
            PatternParse::Failed(stalled())
        },
    }
}

/// The alternatives after those in `acc`: each after `|`, a primary pattern.
pub open spec fn alternatives_rest_at(inp: TokenInput, s: Spot, acc: Seq<PatternModel>) -> PatternsParse
    decreases measure_at(inp, s), 3int,
{
    match consume_at(inp, s, TokenKind::Pipe) {
        Err(f) => PatternsParse::Failed(f),
        Ok((false, s1)) => PatternsParse::Parsed(acc, s1),
        Ok((true, s1)) => if smaller(inp, s1, s) {
            match pattern_primary_at(inp, s1) {
                PatternParse::Failed(f) => PatternsParse::Failed(f),
                PatternParse::Parsed(None, s2) => PatternsParse::Failed(
                    Failure::Syntax(location_of(s2.current), "Expected pattern after '|'"@)),
                PatternParse::Parsed(Some(p), s2) => if smaller(inp, s2, s) {
                    alternatives_rest_at(inp, s2, acc.push(p))
                } else {
                    PatternsParse::Failed(stalled())
                },
            }
        } else {
            PatternsParse::Failed(stalled())
        },
    }
}

/// The pattern the current token at `s` makes alone, when it is read: a literal, a variable or
/// the wildcard.
pub open spec fn single_token_pattern(t: Token) -> Option<PatternModel> {
    match literal_of(t) {
        Some(l) => Some(PatternModel::Literal(l)),
        None => match t {
            Token::Identifier(name) => Some(PatternModel::Variable(name@)),
            Token::Underscore => Some(PatternModel::Wildcard),
            _ => None,
        },
    }
}

/// A primary pattern: a literal, a variable, `_`, or patterns in parentheses.
pub open spec fn pattern_primary_at(inp: TokenInput, s: Spot) -> PatternParse
    decreases measure_at(inp, s), 1int,
{
    match s.current {
        None => PatternParse::Parsed(None, s),
        Some(t) => match single_token_pattern(t.token) {
            Some(m) => if read_fails_at(inp, s) {
                PatternParse::Failed(lexical_failure(inp))
            } else {
                PatternParse::Parsed(Some(m), read_at(inp, s))
            },
            None => if t.token.spec_kind() == TokenKind::LeftParen {
                if read_fails_at(inp, s) {
                    PatternParse::Failed(lexical_failure(inp))
                } else if smaller(inp, read_at(inp, s), s) {
                    tuple_pattern_at(inp, read_at(inp, s))
                } else {
                    PatternParse::Failed(stalled())
                }
            } else {
                PatternParse::Parsed(None, s)
            },
        },
    }
}

/// The rest of a tuple pattern after `(`: patterns separated by commas, then `)`.
pub open spec fn tuple_pattern_at(inp: TokenInput, s: Spot) -> PatternParse
    decreases measure_at(inp, s), 5int,
{
    let items = if kind_of(s.current) == Some(TokenKind::RightParen) {
        PatternsParse::Parsed(Seq::empty(), s)
    } else {
        pattern_list_at(inp, s, Seq::empty())
    };
    match items {
        PatternsParse::Failed(f) => PatternParse::Failed(f),
        PatternsParse::Parsed(ps, s1) => match expect_at(inp, s1, Token::RightParen) {
            Err(f) => PatternParse::Failed(f),
            Ok(s2) => PatternParse::Parsed(Some(PatternModel::Tuple(ps)), s2),
        },
    }
}

/// Patterns separated by commas, after those in `acc`; a place where no pattern starts adds none.
pub open spec fn pattern_list_at(inp: TokenInput, s: Spot, acc: Seq<PatternModel>) -> PatternsParse
    decreases measure_at(inp, s), 4int,
{
    match pattern_or_at(inp, s) {
        PatternParse::Failed(f) => PatternsParse::Failed(f),
        PatternParse::Parsed(p, s1) => {
            let acc1 = match p {
                Some(p) => acc.push(p),
                None => acc,
            };
            match consume_at(inp, s1, TokenKind::Comma) {
                Err(f) => PatternsParse::Failed(f),
                Ok((false, s2)) => PatternsParse::Parsed(acc1, s2),
                Ok((true, s2)) => if smaller(inp, s2, s) {
                    pattern_list_at(inp, s2, acc1)
                } else {
                    PatternsParse::Failed(stalled())
                },
            }
        },
    }
}

/// Parse pattern with OR support (1|2|3)
pub(crate) fn parse_pattern_or(parser: &mut Parser) -> (res: Result<Option<Pattern>>)
    requires
        old(parser).wf(),
    ensures
        advanced(*old(parser), *final(parser)),
        res matches Ok(Some(_)) ==> final(parser).measure() < old(parser).measure(),
        gives_pattern(res, *final(parser), pattern_or_at(old(parser).input(), old(parser).spot())),
    decreases old(parser).measure(), 2int,
{
    let ghost inp = parser.input();
    let ghost s0 = parser.spot();
    let first = match parse_pattern_primary(parser)? {
        Some(p) => p,
        None => {
            return Ok(None);
        },
    };
    let ghost first_pattern = first;
    let mut patterns: Vec<Pattern> = Vec::new();
    patterns.push(first);
    let ghost goal = alternatives_rest_at(inp, parser.spot(), seq![first_pattern.model()]);
    proof {
        lemma_pattern_models_single(patterns@);
    }
    loop
        invariant_except_break
            alternatives_rest_at(inp, parser.spot(), pattern_models(patterns@)) == goal,
        invariant
            advanced(*old(parser), *parser),
            parser.input() == inp,
            inp == old(parser).input(),
            s0 == old(parser).spot(),
            parser.measure() < old(parser).measure(),
            patterns@.len() >= 1,
            pattern_or_at(inp, s0) == alternatives_of(goal),
        ensures
            advanced(*old(parser), *parser),
            parser.measure() < old(parser).measure(),
            patterns@.len() >= 1,
            goal == PatternsParse::Parsed(pattern_models(patterns@), parser.spot()),
            pattern_or_at(inp, s0) == alternatives_of(goal),
        decreases parser.measure(),
    {
        if !parser.consume(&Token::Pipe)? {
            break;
        }
        match parse_pattern_primary(parser)? {
            Some(p) => {
                proof {
                    lemma_pattern_models_push(patterns@, p);
                }
                patterns.push(p);
            },
            None => {
                let loc = parser.current_location();
                return Err(CompilerError::syntax(loc.line, loc.column, "Expected pattern after '|'"));
            },
        }
    }
    proof {
        lemma_pattern_models_len(patterns@);
    }
    if patterns.len() > 1 {
        Ok(Some(Pattern::Or(patterns)))
    } else {
        let ghost ps = patterns@;
        let p = patterns.remove(0);
        proof {
            assert(ps =~= seq![p]);
            lemma_pattern_models_single(ps);
        }
        Ok(Some(p))
    }
}

/// Parse primary pattern (without OR)
pub(crate) fn parse_pattern_primary(parser: &mut Parser) -> (res: Result<Option<Pattern>>)
    requires
        old(parser).wf(),
    ensures
        advanced(*old(parser), *final(parser)),
        res matches Ok(Some(_)) ==> final(parser).measure() < old(parser).measure(),
        cur_literal(*old(parser)) is Some && !next_read_fails(*old(parser))
            ==> res == Ok::<Option<Pattern>, CompilerError>(Some(Pattern::Literal(cur_literal(*old(parser))->0))),
        cur_identifier(*old(parser)) is Some && !next_read_fails(*old(parser))
            ==> res == Ok::<Option<Pattern>, CompilerError>(Some(Pattern::Variable(cur_identifier(*old(parser))->0))),
        old(parser).cur_kind() == Some(TokenKind::Underscore) && !next_read_fails(*old(parser))
            ==> res == Ok::<Option<Pattern>, CompilerError>(Some(Pattern::Wildcard)),
        gives_pattern(res, *final(parser), pattern_primary_at(old(parser).input(), old(parser).spot())),
    decreases old(parser).measure(), 1int,
{
    let ghost inp = parser.input();
    let ghost s0 = parser.spot();
    let literal: Option<Literal> = match parser.peek() {
        Some(t) => literal_from_token(&t.token),
        None => {
            return Ok(None);
        },
    };
    match literal {
        Some(l) => {
            parser.advance()?;
            return Ok(Some(Pattern::Literal(l)));
        },
        None => {},
    }
    match parser.current_kind() {
        Some(TokenKind::Identifier) => {
            let name = match cur_name(parser) {
                Some(n) => n,
                None => String::new(),
            };
            parser.advance()?;
            Ok(Some(Pattern::Variable(name)))
        },
        Some(TokenKind::Underscore) => {
            parser.advance()?;
            Ok(Some(Pattern::Wildcard))
        },
        Some(TokenKind::LeftParen) => {
            parser.advance()?;
            proof {
                assert(smaller(inp, parser.spot(), s0));
            }
            parse_tuple_pattern(parser)
        },
        _ => Ok(None),
    }
}

/// The rest of a tuple pattern, after its `(`: patterns separated by commas, then `)`.
fn parse_tuple_pattern(parser: &mut Parser) -> (res: Result<Option<Pattern>>)
    requires
        old(parser).wf(),
    ensures
        advanced(*old(parser), *final(parser)),
        res matches Ok(Some(_)) ==> final(parser).measure() < old(parser).measure(),
        gives_pattern(res, *final(parser), tuple_pattern_at(old(parser).input(), old(parser).spot())),
    decreases old(parser).measure(), 5int,
{
    let patterns = if !parser.check(&Token::RightParen) {
        parse_pattern_list(parser)?
    } else {
        Vec::new()
    };
    proof {
        assert(pattern_models(Seq::<Pattern>::empty()) =~= Seq::<PatternModel>::empty());
    }
    parser.expect(&Token::RightParen)?;
    Ok(Some(Pattern::Tuple(patterns)))
}

/// Patterns separated by commas; a place where no pattern starts adds none.
fn parse_pattern_list(parser: &mut Parser) -> (res: Result<Vec<Pattern>>)
    requires
        old(parser).wf(),
    ensures
        advanced(*old(parser), *final(parser)),
        gives_patterns(res, *final(parser), pattern_list_at(old(parser).input(), old(parser).spot(), Seq::empty())),
    decreases old(parser).measure(), 4int,
{
    let ghost inp = parser.input();
    let ghost goal = pattern_list_at(inp, parser.spot(), Seq::empty());
    let mut patterns: Vec<Pattern> = Vec::new();
    proof {
        assert(pattern_models(patterns@) =~= Seq::<PatternModel>::empty());
    }
    loop
        invariant_except_break
            pattern_list_at(inp, parser.spot(), pattern_models(patterns@)) == goal,
        invariant
            advanced(*old(parser), *parser),
            parser.input() == inp,
            inp == old(parser).input(),
            goal == pattern_list_at(inp, old(parser).spot(), Seq::empty()),
        ensures
            advanced(*old(parser), *parser),
            goal == PatternsParse::Parsed(pattern_models(patterns@), parser.spot()),
        decreases parser.measure(),
    {
        let ghost s = parser.spot();
        match parse_pattern_or(parser)? {
            Some(p) => {
                proof {
                    lemma_pattern_models_push(patterns@, p);
                }
                patterns.push(p);
            },
            None => {},
        }
        if !parser.consume(&Token::Comma)? {
            break;
        }
        proof {
            assert(smaller(inp, parser.spot(), s));
        }
    }
    Ok(patterns)
}

/// Parse if expression
fn parse_if_expression(parser: &mut Parser) -> (res: Result<Option<Expression>>)
    requires
        old(parser).wf(),
    ensures
        advanced(*old(parser), *final(parser)),
        res matches Ok(Some(_)) ==> final(parser).measure() < old(parser).measure(),
    decreases old(parser).measure(), 4int,
{
    parser.expect(&Token::If)?;
    let condition = match parse_expression(parser)? {
        Some(c) => c,
        None => {
            let loc = parser.current_location();
            return Err(CompilerError::syntax(loc.line, loc.column, "Expected condition after 'if'"));
        },
    };
    let then_branch = match parse_expression(parser)? {
        Some(t) => t,
        None => {
            let loc = parser.current_location();
            return Err(CompilerError::syntax(loc.line, loc.column, "Expected expression after 'if' condition"));
        },
    };
    let else_branch = if parser.consume(&Token::Else)? {
        parse_expression(parser)?
    } else {
        None
    };
    let else_branch = match else_branch {
        Some(e) => Some(Box::new(e)),
        None => None,
    };
    let location = parser.current_location();
    Ok(Some(Expression::If(IfExpr { condition: Box::new(condition), then_branch: Box::new(then_branch), else_branch, location })))
}

/// Parse for expression
fn parse_for_expression(parser: &mut Parser) -> (res: Result<Option<Expression>>)
    requires
        old(parser).wf(),
    ensures
        advanced(*old(parser), *final(parser)),
        res matches Ok(Some(_)) ==> final(parser).measure() < old(parser).measure(),
    decreases old(parser).measure(), 4int,
{
    parser.expect(&Token::For)?;
    match cur_name(parser) {
        Some(variable) => {
            parser.advance()?;
            parser.expect(&Token::In)?;
            let iterable = match parse_expression(parser)? {
                Some(i) => i,
                None => {
                    let loc = parser.current_location();
                    return Err(CompilerError::syntax(loc.line, loc.column, "Expected iterable after 'in'"));
                },
            };
            match parse_expression(parser)? {
                Some(body) => {
                    let location = parser.current_location();
                    Ok(Some(Expression::For(ForExpr { variable, iterable: Box::new(iterable), body: Box::new(body), location })))
                },
                None => Ok(None),
            }
        },
        None => {
            let loc = parser.current_location();
            Err(CompilerError::syntax(loc.line, loc.column, "Expected variable name after 'for'"))
        },
    }
}

/// Parse while expression
fn parse_while_expression(parser: &mut Parser) -> (res: Result<Option<Expression>>)
    requires
        old(parser).wf(),
    ensures
        advanced(*old(parser), *final(parser)),
        res matches Ok(Some(_)) ==> final(parser).measure() < old(parser).measure(),
    decreases old(parser).measure(), 4int,
{
    parser.expect(&Token::While)?;
    let condition = match parse_expression(parser)? {
        Some(c) => c,
        None => {
            let loc = parser.current_location();
            return Err(CompilerError::syntax(loc.line, loc.column, "Expected condition after 'while'"));
        },
    };
    match parse_expression(parser)? {
        Some(body) => {
            let location = parser.current_location();
            Ok(Some(Expression::While(WhileExpr { condition: Box::new(condition), body: Box::new(body), location })))
        },
        None => Ok(None),
    }
}

/// Parse try expression
fn parse_try_expression(parser: &mut Parser) -> (res: Result<Option<Expression>>)
    requires
        old(parser).wf(),
    ensures
        advanced(*old(parser), *final(parser)),
        res matches Ok(Some(_)) ==> final(parser).measure() < old(parser).measure(),
    decreases old(parser).measure(), 4int,
{
    parser.expect(&Token::Try)?;
    let expr = match parse_expression(parser)? {
        Some(e) => e,
        None => {
            let loc = parser.current_location();
            return Err(CompilerError::syntax(loc.line, loc.column, "Expected expression after 'try'"));
        },
    };
    let mut catch_handlers: Vec<CatchHandler> = Vec::new();
    while parser.consume(&Token::Catch)?
        invariant
            advanced(*old(parser), *parser),
            parser.measure() < old(parser).measure(),
        decreases parser.measure(),
    {
        match cur_name(parser) {
            Some(variable) => {
                parser.advance()?;
                parser.expect(&Token::Colon)?;
                let exception_type = match parse_type(parser)? {
                    Some(t) => t,
                    None => {
                        let loc = parser.current_location();
                        return Err(CompilerError::syntax(loc.line, loc.column, "Expected exception type after ':'"));
                    },
                };
                match parse_expression(parser)? {
                    Some(body) => {
                        let location = parser.current_location();
                        catch_handlers.push(CatchHandler { exception_type, variable, body, location });
                    },
                    None => {},
                }
            },
            None => {},
        }
    }
    let location = parser.current_location();
    Ok(Some(Expression::Try(TryExpr { expr: Box::new(expr), catch_handlers, location })))
}

/// Parse select expression
fn parse_select_expression(parser: &mut Parser) -> (res: Result<Option<Expression>>)
    requires
        old(parser).wf(),
    ensures
        advanced(*old(parser), *final(parser)),
        res matches Ok(Some(_)) ==> final(parser).measure() < old(parser).measure(),
    decreases old(parser).measure(), 4int,
{
    parser.expect(&Token::Select)?;
    parser.expect(&Token::LeftBrace)?;
    let mut cases: Vec<SelectCase> = Vec::new();
    let mut default_case: Option<Expression> = None;
    loop
        invariant
            advanced(*old(parser), *parser),
            parser.measure() < old(parser).measure(),
        decreases parser.measure(),
    {
        if parser.check(&Token::RightBrace) {
            break;
        }
        if parser.consume(&Token::Default)? {
            parser.expect(&Token::Arrow)?;
            default_case = parse_expression(parser)?;
            break;
        } else {
            let channel = match parse_expression(parser)? {
                Some(c) => c,
                None => {
                    break;
                },
            };
            parser.expect(&Token::Arrow)?;
            match parse_expression(parser)? {
                Some(body) => {
                    let location = parser.current_location();
                    cases.push(SelectCase { channel, body, location });
                },
                None => {},
            }
        }
        if !parser.consume(&Token::Comma)? {
            break;
        }
    }
    parser.expect(&Token::RightBrace)?;
    let default_case = match default_case {
        Some(d) => Some(Box::new(d)),
        None => None,
    };
    let location = parser.current_location();
    Ok(Some(Expression::Select(SelectExpr { cases, default_case, location })))
}

/// Parse go expression
fn parse_go_expression(parser: &mut Parser) -> (res: Result<Option<Expression>>)
    requires
        old(parser).wf(),
    ensures
        advanced(*old(parser), *final(parser)),
        res matches Ok(Some(_)) ==> final(parser).measure() < old(parser).measure(),
    decreases old(parser).measure(), 4int,
{
    parser.expect(&Token::Go)?;
    match parse_expression(parser)? {
        Some(Expression::Call(call)) => {
            let location = parser.current_location();
            Ok(Some(Expression::Go(GoExpr { call, location })))
        },
        _ => {
            let loc = parser.current_location();
            Err(CompilerError::syntax(loc.line, loc.column, "Expected function call after 'go'"))
        },
    }
}

/// Parse new expression for creating reference-counted objects
fn parse_new_expression(parser: &mut Parser) -> (res: Result<Option<Expression>>)
    requires
        old(parser).wf(),
    ensures
        advanced(*old(parser), *final(parser)),
        res matches Ok(Some(_)) ==> final(parser).measure() < old(parser).measure(),
    decreases old(parser).measure(), 4int,
{
    parser.expect(&Token::New)?;
    let object_type: String = match parser.current_kind() {
        Some(TokenKind::Identifier) => match cur_name(parser) {
            Some(n) => n,
            None => String::new(),
        },
        Some(TokenKind::Int) => String::from_str("int"),
        Some(TokenKind::I8) => String::from_str("i8"),
        Some(TokenKind::I16) => String::from_str("i16"),
        Some(TokenKind::I64) => String::from_str("i64"),
        Some(TokenKind::F32) => String::from_str("f32"),
        Some(TokenKind::F64) => String::from_str("f64"),
        Some(TokenKind::Bool) => String::from_str("bool"),
        _ => {
            let loc = parser.current_location();
            return Err(CompilerError::syntax(loc.line, loc.column, "Expected type name after 'new'"));
        },
    };
    parser.advance()?;
    let initializer = if parser.consume(&Token::LeftBrace)? {
        let expr = parse_expression(parser)?;
        parser.expect(&Token::RightBrace)?;
        expr
    } else if parser.consume(&Token::LeftParen)? {
        let expr = parse_expression(parser)?;
        parser.expect(&Token::RightParen)?;
        expr
    } else {
        None
    };
    let initializer = match initializer {
        Some(e) => Some(Box::new(e)),
        None => None,
    };
    let location = parser.current_location();
    Ok(Some(Expression::New(NewExpr { object_type, initializer, location })))
}

} // verus!
