//! Type parser for Nature language
use vstd::prelude::*;
use crate::ast::types::{Type, BasicType, ArrayType, MapType, TupleType, StructType, FunctionType, PointerType, SliceType, ChannelType, ChannelDirection, OptionalType, ErrorType, UnionType, AliasType, TypeModel, models, lemma_models_push, lemma_models_single, lemma_models_len};
use crate::error::{CompilerError, Result};
use crate::lexer::token::{Token, TokenKind};
use super::{Parser, advanced, stepped, next_kind, next_read_fails, cur_identifier, kind_of, location_of, TokenInput, Spot, Failure,
    read_fails_at, read_at, measure_at, smaller, lexical_failure, stalled, fails_with, consume_at, expect_at, int_at};

verus! {

/// What parsing a type from a spot gives: a failure, or the type found (if any) and where the
/// parser then stands.
pub enum TypeParse {
    Failed(Failure),
    Parsed(Option<TypeModel>, Spot),
}

/// What parsing a list of types from a spot gives: a failure, or the types found and where the
/// parser then stands.
pub enum TypesParse {
    Failed(Failure),
    Parsed(Seq<TypeModel>, Spot),
}

/// A parser that gave `res` and stands at `p` did what `o` says.
pub open spec fn gives_type(res: Result<Option<Type>>, p: Parser, o: TypeParse) -> bool {
    match o {
        TypeParse::Failed(f) => res is Err && fails_with(res->Err_0, f),
        TypeParse::Parsed(t, sp) => p.spot() == sp && match t {
            None => res == Ok::<Option<Type>, CompilerError>(None),
            Some(m) => res matches Ok(Some(ty)) && ty.model() == m,
        },
    }
}

/// A type: a union type.
pub open spec fn type_at(inp: TokenInput, s: Spot) -> TypeParse
    decreases measure_at(inp, s), 13int,
{
    union_at(inp, s)
}

/// The type a union's members make: one alone is itself, two or more a union.
pub open spec fn union_of(o: TypesParse) -> TypeParse {
    match o {
        TypesParse::Failed(f) => TypeParse::Failed(f),
        TypesParse::Parsed(ts, s2) => if ts.len() == 1 {
            TypeParse::Parsed(Some(ts[0]), s2)
        } else {
            TypeParse::Parsed(Some(TypeModel::Union(ts, location_of(s2.current))), s2)
        },
    }
}

/// An optional type, then more of them, each after `|`; one alone is itself, two or more a union.
pub open spec fn union_at(inp: TokenInput, s: Spot) -> TypeParse
    decreases measure_at(inp, s), 12int,
{
    match optional_at(inp, s) {
        TypeParse::Failed(f) => TypeParse::Failed(f),
        TypeParse::Parsed(None, s1) => TypeParse::Parsed(None, s1),
        TypeParse::Parsed(Some(first), s1) => if smaller(inp, s1, s) {
            union_of(union_rest_at(inp, s1, seq![first]))
        } else {
            TypeParse::Failed(stalled())
        },
    }
}

/// The members of a union after those in `acc`: each after `|`, an optional type.
pub open spec fn union_rest_at(inp: TokenInput, s: Spot, acc: Seq<TypeModel>) -> TypesParse
    decreases measure_at(inp, s), 15int,
{
    match consume_at(inp, s, TokenKind::Pipe) {
        Err(f) => TypesParse::Failed(f),
        Ok((false, s1)) => TypesParse::Parsed(acc, s1),
        Ok((true, s1)) => if smaller(inp, s1, s) {
            match optional_at(inp, s1) {
                TypeParse::Failed(f) => TypesParse::Failed(f),
                TypeParse::Parsed(None, s2) => TypesParse::Failed(
                    Failure::Syntax(location_of(s2.current), "Expected type after '|'"@)),
                TypeParse::Parsed(Some(t), s2) => if smaller(inp, s2, s) {
                    union_rest_at(inp, s2, acc.push(t))
                } else {
                    TypesParse::Failed(stalled())
                },
            }
        } else {
            TypesParse::Failed(stalled())
        },
    }
}

/// An error type, then `?` for an optional one.
pub open spec fn optional_at(inp: TokenInput, s: Spot) -> TypeParse
    decreases measure_at(inp, s), 11int,
{
    match error_at(inp, s) {
        TypeParse::Failed(f) => TypeParse::Failed(f),
        TypeParse::Parsed(None, s1) => TypeParse::Parsed(None, s1),
        TypeParse::Parsed(Some(t), s1) => match consume_at(inp, s1, TokenKind::Question) {
            Err(f) => TypeParse::Failed(f),
            Ok((false, s2)) => TypeParse::Parsed(Some(t), s2),
            Ok((true, s2)) => TypeParse::Parsed(Some(TypeModel::Optional(Box::new(t), location_of(s2.current))), s2),
        },
    }
}

/// A function type, then `!` for an error type.
pub open spec fn error_at(inp: TokenInput, s: Spot) -> TypeParse
    decreases measure_at(inp, s), 10int,
{
    match function_at(inp, s) {
        TypeParse::Failed(f) => TypeParse::Failed(f),
        TypeParse::Parsed(None, s1) => TypeParse::Parsed(None, s1),
        TypeParse::Parsed(Some(t), s1) => match consume_at(inp, s1, TokenKind::Not) {
            Err(f) => TypeParse::Failed(f),
            Ok((false, s2)) => TypeParse::Parsed(Some(t), s2),
            Ok((true, s2)) => TypeParse::Parsed(Some(TypeModel::Error(Box::new(t), location_of(s2.current))), s2),
        },
    }
}

/// Types separated by commas, after those in `acc`; a place where no type starts adds none.
pub open spec fn type_list_at(inp: TokenInput, s: Spot, acc: Seq<TypeModel>) -> TypesParse
    decreases measure_at(inp, s), 14int,
{
    match type_at(inp, s) {
        TypeParse::Failed(f) => TypesParse::Failed(f),
        TypeParse::Parsed(t, s1) => {
            let acc1 = match t {
                Some(t) => acc.push(t),
                None => acc,
            };
            match consume_at(inp, s1, TokenKind::Comma) {
                Err(f) => TypesParse::Failed(f),
                Ok((false, s2)) => TypesParse::Parsed(acc1, s2),
                Ok((true, s2)) => if smaller(inp, s2, s) {
                    type_list_at(inp, s2, acc1)
                } else {
                    TypesParse::Failed(stalled())
                },
            }
        },
    }
}

/// The types of a list that closes with a token of kind `close`: none when it closes at once.
pub open spec fn list_at(inp: TokenInput, s: Spot, close: TokenKind) -> TypesParse
    decreases measure_at(inp, s), 16int,
{
    if kind_of(s.current) == Some(close) {
        TypesParse::Parsed(Seq::empty(), s)
    } else {
        type_list_at(inp, s, Seq::empty())
    }
}

/// The list at `s`, which must lie past `s0`.
pub open spec fn list_after(inp: TokenInput, s: Spot, s0: Spot, close: TokenKind) -> TypesParse
    decreases measure_at(inp, s0), 0int,
{
    if smaller(inp, s, s0) {
        list_at(inp, s, close)
    } else {
        TypesParse::Failed(stalled())
    }
}

/// A parser that gave `res` and stands at `p` did what `o` says.
pub open spec fn gives_types(res: Result<Vec<Type>>, p: Parser, o: TypesParse) -> bool {
    match o {
        TypesParse::Failed(f) => res is Err && fails_with(res->Err_0, f),
        TypesParse::Parsed(ts, sp) => p.spot() == sp && (res matches Ok(v) && models(v@) == ts),
    }
}

/// `fn`, parameter types in parentheses and `->` with a return type, or an array type.
pub open spec fn function_at(inp: TokenInput, s: Spot) -> TypeParse
    decreases measure_at(inp, s), 9int,
{
    match consume_at(inp, s, TokenKind::Fn) {
        Err(f) => TypeParse::Failed(f),
        Ok((false, _)) => array_at(inp, s),
        Ok((true, s1)) => match expect_at(inp, s1, Token::LeftParen) {
            Err(f) => TypeParse::Failed(f),
            Ok(s2) => match list_after(inp, s2, s, TokenKind::RightParen) {
                TypesParse::Failed(f) => TypeParse::Failed(f),
                TypesParse::Parsed(ps, s3) => match expect_at(inp, s3, Token::RightParen) {
                    Err(f) => TypeParse::Failed(f),
                    Ok(s4) => match consume_at(inp, s4, TokenKind::Arrow) {
                        Err(f) => TypeParse::Failed(f),
                        Ok((false, s5)) => TypeParse::Parsed(
                            Some(TypeModel::Function(ps, None, false, location_of(s5.current))), s5),
                        Ok((true, s5)) => if smaller(inp, s5, s) {
                            match type_at(inp, s5) {
                                TypeParse::Failed(f) => TypeParse::Failed(f),
                                TypeParse::Parsed(r, s6) => TypeParse::Parsed(Some(TypeModel::Function(
                                    ps,
                                    match r {
                                        Some(r) => Some(Box::new(r)),
                                        None => None,
                                    },
                                    false,
                                    location_of(s6.current),
                                )), s6),
                            }
                        } else {
                            TypeParse::Failed(stalled())
                        },
                    },
                },
            },
        },
    }
}

/// After an array's element type: `,` and an integer size, or nothing.
pub open spec fn array_size_at(inp: TokenInput, s: Spot) -> std::result::Result<(Option<usize>, Spot), Failure> {
    match consume_at(inp, s, TokenKind::Comma) {
        Err(f) => Err(f),
        Ok((false, s1)) => Ok((None, s1)),
        Ok((true, s1)) => match int_at(s1) {
            Some(n) => if read_fails_at(inp, s1) {
                Err(lexical_failure(inp))
            } else {
                Ok((Some(n as usize), read_at(inp, s1)))
            },
            None => Err(Failure::Syntax(location_of(s1.current), "Expected array size after ','"@)),
        },
    }
}

/// `[` then `]` and an element type for a slice type, or `[`, an element type, an optional size
/// and `]` for an array type; else a slice or map type.
pub open spec fn array_at(inp: TokenInput, s: Spot) -> TypeParse
    decreases measure_at(inp, s), 8int,
{
    match consume_at(inp, s, TokenKind::LeftBracket) {
        Err(f) => TypeParse::Failed(f),
        Ok((false, _)) => slice_at(inp, s),
        Ok((true, s1)) => if !smaller(inp, s1, s) {
            TypeParse::Failed(stalled())
        } else if kind_of(s1.current) == Some(TokenKind::RightBracket) {
            if read_fails_at(inp, s1) {
                TypeParse::Failed(lexical_failure(inp))
            } else if smaller(inp, read_at(inp, s1), s) {
                slice_rest_at(inp, read_at(inp, s1))
            } else {
                TypeParse::Failed(stalled())
            }
        } else {
            match type_at(inp, s1) {
                TypeParse::Failed(f) => TypeParse::Failed(f),
                TypeParse::Parsed(None, s2) => TypeParse::Failed(
                    Failure::Syntax(location_of(s2.current), "Expected element type in array type"@)),
                TypeParse::Parsed(Some(e), s2) => match array_size_at(inp, s2) {
                    Err(f) => TypeParse::Failed(f),
                    Ok((size, s3)) => match expect_at(inp, s3, Token::RightBracket) {
                        Err(f) => TypeParse::Failed(f),
                        Ok(s4) => TypeParse::Parsed(Some(TypeModel::Array(Box::new(e), size, location_of(s4.current))), s4),
                    },
                },
            }
        },
    }
}

/// The element type of a slice type `[]T`, after its `]`.
pub open spec fn slice_rest_at(inp: TokenInput, s: Spot) -> TypeParse
    decreases measure_at(inp, s), 18int,
{
    match type_at(inp, s) {
        TypeParse::Failed(f) => TypeParse::Failed(f),
        TypeParse::Parsed(None, s1) => TypeParse::Failed(
            Failure::Syntax(location_of(s1.current), "Expected element type in slice type"@)),
        TypeParse::Parsed(Some(t), s1) => TypeParse::Parsed(Some(TypeModel::Slice(Box::new(t), location_of(s1.current))), s1),
    }
}

/// `[` and `]` before an element type, or a map type.
pub open spec fn slice_at(inp: TokenInput, s: Spot) -> TypeParse
    decreases measure_at(inp, s), 7int,
{
    match consume_at(inp, s, TokenKind::LeftBracket) {
        Err(f) => TypeParse::Failed(f),
        Ok((false, _)) => map_at(inp, s),
        Ok((true, s1)) => match consume_at(inp, s1, TokenKind::RightBracket) {
            Err(f) => TypeParse::Failed(f),
            Ok((false, s2)) => if smaller(inp, s2, s) {
                map_at(inp, s2)
            } else {
                TypeParse::Failed(stalled())
            },
            Ok((true, s2)) => if smaller(inp, s2, s) {
                match type_at(inp, s2) {
                    TypeParse::Failed(f) => TypeParse::Failed(f),
                    TypeParse::Parsed(None, s3) => TypeParse::Failed(
                        Failure::Syntax(location_of(s3.current), "Expected element type in slice type"@)),
                    TypeParse::Parsed(Some(t), s3) => TypeParse::Parsed(Some(TypeModel::Slice(Box::new(t), location_of(s3.current))), s3),
                }
            } else {
                TypeParse::Failed(stalled())
            },
        },
    }
}

/// `map<`, a key type, `,`, a value type and `>`, or a channel type.
pub open spec fn map_at(inp: TokenInput, s: Spot) -> TypeParse
    decreases measure_at(inp, s), 6int,
{
    match consume_at(inp, s, TokenKind::MapKw) {
        Err(f) => TypeParse::Failed(f),
        Ok((false, _)) => channel_at(inp, s),
        Ok((true, s1)) => match expect_at(inp, s1, Token::Less) {
            Err(f) => TypeParse::Failed(f),
            Ok(s2) => if smaller(inp, s2, s) {
                match type_at(inp, s2) {
                    TypeParse::Failed(f) => TypeParse::Failed(f),
                    TypeParse::Parsed(None, s3) => TypeParse::Failed(
                        Failure::Syntax(location_of(s3.current), "Expected key type in map type"@)),
                    TypeParse::Parsed(Some(k), s3) => match expect_at(inp, s3, Token::Comma) {
                        Err(f) => TypeParse::Failed(f),
                        Ok(s4) => if smaller(inp, s4, s) {
                            match type_at(inp, s4) {
                                TypeParse::Failed(f) => TypeParse::Failed(f),
                                TypeParse::Parsed(None, s5) => TypeParse::Failed(
                                    Failure::Syntax(location_of(s5.current), "Expected value type in map type"@)),
                                TypeParse::Parsed(Some(v), s5) => match expect_at(inp, s5, Token::Greater) {
                                    Err(f) => TypeParse::Failed(f),
                                    Ok(s6) => TypeParse::Parsed(
                                        Some(TypeModel::MapOf(Box::new(k), Box::new(v), location_of(s6.current))), s6),
                                },
                            }
                        } else {
                            TypeParse::Failed(stalled())
                        },
                    },
                }
            } else {
                TypeParse::Failed(stalled())
            },
        },
    }
}

/// A channel's direction after `chan`: `<-` receives, `-` and `>` sends, anything else goes both
/// ways (a `-` alone is read and dropped).
pub open spec fn direction_at(inp: TokenInput, s: Spot) -> std::result::Result<(ChannelDirection, Spot), Failure> {
    match consume_at(inp, s, TokenKind::LeftShift) {
        Err(f) => Err(f),
        Ok((true, s1)) => Ok((ChannelDirection::Receive, s1)),
        Ok((false, s1)) => match consume_at(inp, s1, TokenKind::Minus) {
            Err(f) => Err(f),
            Ok((false, s2)) => Ok((ChannelDirection::Bidirectional, s2)),
            Ok((true, s2)) => match consume_at(inp, s2, TokenKind::Greater) {
                Err(f) => Err(f),
                Ok((true, s3)) => Ok((ChannelDirection::Send, s3)),
                Ok((false, s3)) => Ok((ChannelDirection::Bidirectional, s3)),
            },
        },
    }
}

/// After a channel's element type: a buffer size in brackets, or nothing.
pub open spec fn buffer_size_at(inp: TokenInput, s: Spot) -> std::result::Result<(Option<usize>, Spot), Failure> {
    match consume_at(inp, s, TokenKind::LeftBracket) {
        Err(f) => Err(f),
        Ok((false, s1)) => Ok((None, s1)),
        Ok((true, s1)) => match int_at(s1) {
            Some(n) => if read_fails_at(inp, s1) {
                Err(lexical_failure(inp))
            } else {
                match expect_at(inp, read_at(inp, s1), Token::RightBracket) {
                    Err(f) => Err(f),
                    Ok(s3) => Ok((Some(n as usize), s3)),
                }
            },
            None => Err(Failure::Syntax(location_of(s1.current), "Expected buffer size in channel type"@)),
        },
    }
}

/// `chan`, a direction, an element type and a buffer size, or a pointer type.
pub open spec fn channel_at(inp: TokenInput, s: Spot) -> TypeParse
    decreases measure_at(inp, s), 5int,
{
    match consume_at(inp, s, TokenKind::Chan) {
        Err(f) => TypeParse::Failed(f),
        Ok((false, _)) => pointer_at(inp, s),
        Ok((true, s1)) => match direction_at(inp, s1) {
            Err(f) => TypeParse::Failed(f),
            Ok((dir, s2)) => if smaller(inp, s2, s) {
                match type_at(inp, s2) {
                    TypeParse::Failed(f) => TypeParse::Failed(f),
                    TypeParse::Parsed(None, s3) => TypeParse::Failed(
                        Failure::Syntax(location_of(s3.current), "Expected element type in channel type"@)),
                    TypeParse::Parsed(Some(e), s3) => match buffer_size_at(inp, s3) {
                        Err(f) => TypeParse::Failed(f),
                        Ok((size, s4)) => TypeParse::Parsed(
                            Some(TypeModel::Channel(Box::new(e), dir, size, location_of(s4.current))), s4),
                    },
                }
            } else {
                TypeParse::Failed(stalled())
            },
        },
    }
}

/// A tuple type, then `*` for a pointer to it.
pub open spec fn pointer_at(inp: TokenInput, s: Spot) -> TypeParse
    decreases measure_at(inp, s), 4int,
{
    match tuple_at(inp, s) {
        TypeParse::Failed(f) => TypeParse::Failed(f),
        TypeParse::Parsed(None, s1) => TypeParse::Parsed(None, s1),
        TypeParse::Parsed(Some(b), s1) => match consume_at(inp, s1, TokenKind::Star) {
            Err(f) => TypeParse::Failed(f),
            Ok((false, s2)) => TypeParse::Parsed(Some(b), s2),
            Ok((true, s2)) => TypeParse::Parsed(Some(TypeModel::Pointer(Box::new(b), false, false, location_of(s2.current))), s2),
        },
    }
}

/// Types in parentheses: none is `void`, one is itself, more a tuple; or a primary type.
pub open spec fn tuple_at(inp: TokenInput, s: Spot) -> TypeParse
    decreases measure_at(inp, s), 3int,
{
    match consume_at(inp, s, TokenKind::LeftParen) {
        Err(f) => TypeParse::Failed(f),
        Ok((false, _)) => primary_type_at(inp, s),
        Ok((true, s1)) => if smaller(inp, s1, s) {
            tuple_items_at(inp, s1)
        } else {
            TypeParse::Failed(stalled())
        },
    }
}

/// The types in parentheses after `(`, and `)`: none is `void`, one is itself, more a tuple.
pub open spec fn tuple_items_at(inp: TokenInput, s: Spot) -> TypeParse
    decreases measure_at(inp, s), 17int,
{
    match list_at(inp, s, TokenKind::RightParen) {
        TypesParse::Failed(f) => TypeParse::Failed(f),
        TypesParse::Parsed(ts, s2) => match expect_at(inp, s2, Token::RightParen) {
            Err(f) => TypeParse::Failed(f),
            Ok(s3) => if ts.len() == 0 {
                TypeParse::Parsed(Some(TypeModel::Basic(BasicType::Void)), s3)
            } else if ts.len() == 1 {
                TypeParse::Parsed(Some(ts[0]), s3)
            } else {
                TypeParse::Parsed(Some(TypeModel::Tuple(ts, location_of(s3.current))), s3)
            },
        },
    }
}

/// A named type with its type arguments: a struct type before `{`, a generic name without
/// arguments, an alias with them.
pub open spec fn named_type(name: Seq<char>, args: Seq<TypeModel>, s: Spot) -> TypeParse {
    if kind_of(s.current) == Some(TokenKind::LeftBrace) {
        TypeParse::Parsed(Some(TypeModel::Struct(name, args, location_of(s.current))), s)
    } else if args.len() == 0 {
        TypeParse::Parsed(Some(TypeModel::Generic(name)), s)
    } else {
        TypeParse::Parsed(Some(TypeModel::Alias(name, args, location_of(s.current))), s)
    }
}

/// A name's type arguments in `<` and `>`, if any, read from `s`, just after the name.
pub open spec fn named_type_at(inp: TokenInput, s: Spot, name: Seq<char>) -> TypeParse
    decreases measure_at(inp, s), 1int,
{
    match consume_at(inp, s, TokenKind::Less) {
        Err(f) => TypeParse::Failed(f),
        Ok((false, s2)) => named_type(name, Seq::empty(), s2),
        Ok((true, s2)) => match list_after(inp, s2, s, TokenKind::Greater) {
            TypesParse::Failed(f) => TypeParse::Failed(f),
            TypesParse::Parsed(ts, s3) => match expect_at(inp, s3, Token::Greater) {
                Err(f) => TypeParse::Failed(f),
                Ok(s4) => named_type(name, ts, s4),
            },
        },
    }
}

/// A basic type, or a name with type arguments in `<` and `>`; nothing else starts one.
pub open spec fn primary_type_at(inp: TokenInput, s: Spot) -> TypeParse
    decreases measure_at(inp, s), 2int,
{
    match s.current {
        None => TypeParse::Parsed(None, s),
        Some(t) => match basic_type_of(t.token.spec_kind()) {
            Some(b) => if read_fails_at(inp, s) {
                TypeParse::Failed(lexical_failure(inp))
            } else {
                TypeParse::Parsed(Some(TypeModel::Basic(b)), read_at(inp, s))
            },
            None => match t.token {
                Token::Identifier(name) => if read_fails_at(inp, s) {
                    TypeParse::Failed(lexical_failure(inp))
                } else if smaller(inp, read_at(inp, s), s) {
                    named_type_at(inp, read_at(inp, s), name@)
                } else {
                    TypeParse::Failed(stalled())
                },
                _ => TypeParse::Parsed(None, s),
            },
        },
    }
}

/// The basic type a token names, where it names one. A character literal names `char`.
pub open spec fn basic_type_of(k: TokenKind) -> Option<BasicType> {
    match k {
        TokenKind::Int => Some(BasicType::Int),
        TokenKind::I8 => Some(BasicType::I8),
        TokenKind::I16 => Some(BasicType::I16),
        TokenKind::I32 => Some(BasicType::I32),
        TokenKind::I64 => Some(BasicType::I64),
        TokenKind::U8 => Some(BasicType::U8),
        TokenKind::U16 => Some(BasicType::U16),
        TokenKind::U32 => Some(BasicType::U32),
        TokenKind::U64 => Some(BasicType::U64),
        TokenKind::F32 => Some(BasicType::F32),
        TokenKind::F64 => Some(BasicType::F64),
        TokenKind::Bool => Some(BasicType::Bool),
        TokenKind::StringType => Some(BasicType::String),
        TokenKind::Char => Some(BasicType::Char),
        TokenKind::Any => Some(BasicType::Any),
        TokenKind::AnyPtr => Some(BasicType::AnyPtr),
        TokenKind::RawPtr => Some(BasicType::RawPtr),
        _ => None,
    }
}

/// The tokens a type can start with.
pub open spec fn starts_type(k: TokenKind) -> bool {
    ||| basic_type_of(k) is Some
    ||| k == TokenKind::Identifier
    ||| k == TokenKind::Fn
    ||| k == TokenKind::LeftBracket
    ||| k == TokenKind::MapKw
    ||| k == TokenKind::Chan
    ||| k == TokenKind::LeftParen
}

/// A type can start with the current token.
pub open spec fn cur_starts_type(p: Parser) -> bool {
    match p.cur_kind() {
        Some(k) => starts_type(k),
        None => false,
    }
}

/// The basic type the current token names, where it names one.
pub open spec fn cur_basic(p: Parser) -> Option<BasicType> {
    match p.cur_kind() {
        Some(k) => basic_type_of(k),
        None => None,
    }
}

/// The basic type a token names.
fn basic_type_for(k: TokenKind) -> (res: Option<BasicType>)
    ensures
        res == basic_type_of(k),
{
    match k {
        TokenKind::Int => Some(BasicType::Int),
        TokenKind::I8 => Some(BasicType::I8),
        TokenKind::I16 => Some(BasicType::I16),
        TokenKind::I32 => Some(BasicType::I32),
        TokenKind::I64 => Some(BasicType::I64),
        TokenKind::U8 => Some(BasicType::U8),
        TokenKind::U16 => Some(BasicType::U16),
        TokenKind::U32 => Some(BasicType::U32),
        TokenKind::U64 => Some(BasicType::U64),
        TokenKind::F32 => Some(BasicType::F32),
        TokenKind::F64 => Some(BasicType::F64),
        TokenKind::Bool => Some(BasicType::Bool),
        TokenKind::StringType => Some(BasicType::String),
        TokenKind::Char => Some(BasicType::Char),
        TokenKind::Any => Some(BasicType::Any),
        TokenKind::AnyPtr => Some(BasicType::AnyPtr),
        TokenKind::RawPtr => Some(BasicType::RawPtr),
        _ => None,
    }
}

/// Parse a type
pub fn parse_type(parser: &mut Parser) -> (res: Result<Option<Type>>)
    requires
        old(parser).wf(),
    ensures
        advanced(*old(parser), *final(parser)),
        res matches Ok(Some(_)) ==> final(parser).measure() < old(parser).measure(),
        !cur_starts_type(*old(parser)) ==> (res matches Ok(None) && *final(parser) == *old(parser)),
        cur_basic(*old(parser)) is Some && !next_read_fails(*old(parser))
            && next_kind(*old(parser)) != Some(TokenKind::Star)
            && next_kind(*old(parser)) != Some(TokenKind::Not)
            && next_kind(*old(parser)) != Some(TokenKind::Question)
            && next_kind(*old(parser)) != Some(TokenKind::Pipe)
            ==> res == Ok::<Option<Type>, CompilerError>(Some(Type::Basic(cur_basic(*old(parser))->0)))
                && stepped(*old(parser), *final(parser)),
        gives_type(res, *final(parser), type_at(old(parser).input(), old(parser).spot())),
    decreases old(parser).measure(), 12int,
{
    parse_union_type(parser)
}

/// Parse union type (A | B | C)
#[verifier::rlimit(100)]
fn parse_union_type(parser: &mut Parser) -> (res: Result<Option<Type>>)
    requires
        old(parser).wf(),
    ensures
        advanced(*old(parser), *final(parser)),
        res matches Ok(Some(_)) ==> final(parser).measure() < old(parser).measure(),
        !cur_starts_type(*old(parser)) ==> (res matches Ok(None) && *final(parser) == *old(parser)),
        cur_basic(*old(parser)) is Some && !next_read_fails(*old(parser))
            && next_kind(*old(parser)) != Some(TokenKind::Star)
            && next_kind(*old(parser)) != Some(TokenKind::Not)
            && next_kind(*old(parser)) != Some(TokenKind::Question)
            && next_kind(*old(parser)) != Some(TokenKind::Pipe)
            ==> res == Ok::<Option<Type>, CompilerError>(Some(Type::Basic(cur_basic(*old(parser))->0)))
                && stepped(*old(parser), *final(parser)),
        gives_type(res, *final(parser), union_at(old(parser).input(), old(parser).spot())),
    decreases old(parser).measure(), 11int,
{
    let ghost inp = parser.input();
    let ghost s0 = parser.spot();
    let first = parse_optional_type(parser)?;
    let first = match first {
        Some(t) => t,
        None => {
            return Ok(None);
        },
    };
    let ghost first_type = first;
    let mut types: Vec<Type> = Vec::new();
    types.push(first);
    let ghost after_first = *parser;
    let ghost goal = union_rest_at(inp, parser.spot(), seq![first_type.model()]);
    proof {
        lemma_models_single(types@);
    }
    loop
        invariant_except_break
            union_rest_at(inp, parser.spot(), models(types@)) == goal,
        invariant
            advanced(*old(parser), *parser),
            parser.input() == inp,
            inp == old(parser).input(),
            s0 == old(parser).spot(),
            parser.measure() < old(parser).measure(),
            smaller(inp, after_first.spot(), s0),
            types@.len() >= 1,
            types@.len() == 1 ==> *parser == after_first && types@[0] == first_type,
            types@.len() > 1 ==> after_first.cur_kind() == Some(TokenKind::Pipe),
            cur_starts_type(*old(parser)),
            cur_basic(*old(parser)) is Some && !next_read_fails(*old(parser))
                && next_kind(*old(parser)) != Some(TokenKind::Star)
                && next_kind(*old(parser)) != Some(TokenKind::Not)
                && next_kind(*old(parser)) != Some(TokenKind::Question)
                ==> stepped(*old(parser), after_first) && after_first.cur_kind() == next_kind(*old(parser)),
            union_at(inp, s0) == union_of(goal),
        ensures
            advanced(*old(parser), *parser),
            parser.measure() < old(parser).measure(),
            types@.len() >= 1,
            types@.len() == 1 ==> *parser == after_first && types@[0] == first_type,
            after_first.cur_kind() != Some(TokenKind::Pipe) ==> types@.len() == 1,
            goal == TypesParse::Parsed(models(types@), parser.spot()),
            union_at(inp, s0) == union_of(goal),
        decreases parser.measure(),
    {
        if !parser.consume(&Token::Pipe)? {
            break;
        }
        match parse_optional_type(parser)? {
            Some(t) => {
                proof {
                    lemma_models_push(types@, t);
                }
                types.push(t);
            },
            None => {
                let loc = parser.current_location();
                return Err(CompilerError::syntax(loc.line, loc.column, "Expected type after '|'"));
            },
        }
    }
    proof {
        lemma_models_len(types@);
    }
    if types.len() == 1 {
        let ghost ts = types@;
        let t = types.remove(0);
        proof {
            assert(ts =~= seq![t]);
            lemma_models_single(ts);
        }
        Ok(Some(t))
    } else {
        let location = parser.current_location();
        Ok(Some(Type::Union(UnionType { member_types: types, location })))
    }
}

/// Parse optional type (T?)
fn parse_optional_type(parser: &mut Parser) -> (res: Result<Option<Type>>)
    requires
        old(parser).wf(),
    ensures
        advanced(*old(parser), *final(parser)),
        res matches Ok(Some(_)) ==> final(parser).measure() < old(parser).measure(),
        !cur_starts_type(*old(parser)) ==> (res matches Ok(None) && *final(parser) == *old(parser)),
        cur_basic(*old(parser)) is Some && !next_read_fails(*old(parser))
            && next_kind(*old(parser)) != Some(TokenKind::Star)
            && next_kind(*old(parser)) != Some(TokenKind::Not)
            && next_kind(*old(parser)) != Some(TokenKind::Question)
            ==> res == Ok::<Option<Type>, CompilerError>(Some(Type::Basic(cur_basic(*old(parser))->0)))
                && stepped(*old(parser), *final(parser)),
        gives_type(res, *final(parser), optional_at(old(parser).input(), old(parser).spot())),
    decreases old(parser).measure(), 10int,
{
    let ty = parse_error_type(parser)?;
    match ty {
        Some(ty) => {
            if parser.consume(&Token::Question)? {
                let location = parser.current_location();
                Ok(Some(Type::Optional(OptionalType { inner_type: Box::new(ty), location })))
            } else {
                Ok(Some(ty))
            }
        },
        None => Ok(None),
    }
}

/// Parse error type (T!)
fn parse_error_type(parser: &mut Parser) -> (res: Result<Option<Type>>)
    requires
        old(parser).wf(),
    ensures
        advanced(*old(parser), *final(parser)),
        res matches Ok(Some(_)) ==> final(parser).measure() < old(parser).measure(),
        !cur_starts_type(*old(parser)) ==> (res matches Ok(None) && *final(parser) == *old(parser)),
        cur_basic(*old(parser)) is Some && !next_read_fails(*old(parser))
            && next_kind(*old(parser)) != Some(TokenKind::Star)
            && next_kind(*old(parser)) != Some(TokenKind::Not)
            ==> res == Ok::<Option<Type>, CompilerError>(Some(Type::Basic(cur_basic(*old(parser))->0)))
                && stepped(*old(parser), *final(parser)),
        gives_type(res, *final(parser), error_at(old(parser).input(), old(parser).spot())),
    decreases old(parser).measure(), 9int,
{
    let ty = parse_function_type(parser)?;
    match ty {
        Some(ty) => {
            if parser.consume(&Token::Not)? {
                let location = parser.current_location();
                Ok(Some(Type::Error(ErrorType { inner_type: Box::new(ty), location })))
            } else {
                Ok(Some(ty))
            }
        },
        None => Ok(None),
    }
}

/// Parse function type (fn(T1, T2) -> T3)
fn parse_function_type(parser: &mut Parser) -> (res: Result<Option<Type>>)
    requires
        old(parser).wf(),
    ensures
        advanced(*old(parser), *final(parser)),
        res matches Ok(Some(_)) ==> final(parser).measure() < old(parser).measure(),
        !cur_starts_type(*old(parser)) ==> (res matches Ok(None) && *final(parser) == *old(parser)),
        cur_basic(*old(parser)) is Some && !next_read_fails(*old(parser))
            && next_kind(*old(parser)) != Some(TokenKind::Star)
            ==> res == Ok::<Option<Type>, CompilerError>(Some(Type::Basic(cur_basic(*old(parser))->0)))
                && stepped(*old(parser), *final(parser)),
        gives_type(res, *final(parser), function_at(old(parser).input(), old(parser).spot())),
    decreases old(parser).measure(), 8int,
{
    let ghost inp = parser.input();
    let ghost s0 = parser.spot();
    if parser.consume(&Token::Fn)? {
        parser.expect(&Token::LeftParen)?;
        proof {
            assert(smaller(inp, parser.spot(), s0));
        }
        let parameter_types = parse_type_list(parser, &Token::RightParen)?;
        parser.expect(&Token::RightParen)?;
        let return_type = if parser.consume(&Token::Arrow)? {
            proof {
                assert(smaller(inp, parser.spot(), s0));
            }
            parse_type(parser)?
        } else {
            None
        };
        let return_type = match return_type {
            Some(t) => Some(Box::new(t)),
            None => None,
        };
        let location = parser.current_location();
        Ok(Some(Type::Function(FunctionType { parameter_types, return_type, variadic: false, location })))
    } else {
        parse_array_type(parser)
    }
}

/// Parse array type ([T] or [T, size])
fn parse_array_type(parser: &mut Parser) -> (res: Result<Option<Type>>)
    requires
        old(parser).wf(),
    ensures
        advanced(*old(parser), *final(parser)),
        res matches Ok(Some(_)) ==> final(parser).measure() < old(parser).measure(),
        !cur_starts_type(*old(parser)) ==> (res matches Ok(None) && *final(parser) == *old(parser)),
        cur_basic(*old(parser)) is Some && !next_read_fails(*old(parser))
            && next_kind(*old(parser)) != Some(TokenKind::Star)
            ==> res == Ok::<Option<Type>, CompilerError>(Some(Type::Basic(cur_basic(*old(parser))->0)))
                && stepped(*old(parser), *final(parser)),
        gives_type(res, *final(parser), array_at(old(parser).input(), old(parser).spot())),
    decreases old(parser).measure(), 7int,
{
    let ghost inp = parser.input();
    let ghost s0 = parser.spot();
    if parser.consume(&Token::LeftBracket)? {
        if parser.check(&Token::RightBracket) {
            parser.advance()?;
            proof {
                assert(smaller(inp, parser.spot(), s0));
            }
            return parse_slice_element(parser);
        }
        let element_type = parse_type(parser)?;
        let element_type = match element_type {
            Some(t) => t,
            None => {
                let loc = parser.current_location();
                return Err(CompilerError::syntax(loc.line, loc.column, "Expected element type in array type"));
            },
        };
        let size = if parser.consume(&Token::Comma)? {
            let n: Option<i64> = match parser.peek() {
                Some(t) => match &t.token {
                    Token::Integer(n) => Some(*n),
                    _ => None,
                },
                None => None,
            };
            match n {
                Some(n) => {
                    parser.advance()?;
                    Some(n as usize)
                },
                None => {
                    let loc = parser.current_location();
                    return Err(CompilerError::syntax(loc.line, loc.column, "Expected array size after ','"));
                },
            }
        } else {
            None
        };
        parser.expect(&Token::RightBracket)?;
        let location = parser.current_location();
        Ok(Some(Type::Array(ArrayType { element_type: Box::new(element_type), size, location })))
    } else {
        parse_slice_type(parser)
    }
}

/// The element type of a slice type `[]T`, after its `]`.
fn parse_slice_element(parser: &mut Parser) -> (res: Result<Option<Type>>)
    requires
        old(parser).wf(),
    ensures
        advanced(*old(parser), *final(parser)),
        res is Ok ==> res matches Ok(Some(_)),
        gives_type(res, *final(parser), slice_rest_at(old(parser).input(), old(parser).spot())),
    decreases old(parser).measure(), 18int,
{
    match parse_type(parser)? {
        Some(t) => {
            let location = parser.current_location();
            Ok(Some(Type::Slice(SliceType { element_type: Box::new(t), location })))
        },
        None => {
            let loc = parser.current_location();
            Err(CompilerError::syntax(loc.line, loc.column, "Expected element type in slice type"))
        },
    }
}

/// Parse slice type ([]T)
fn parse_slice_type(parser: &mut Parser) -> (res: Result<Option<Type>>)
    requires
        old(parser).wf(),
    ensures
        advanced(*old(parser), *final(parser)),
        res matches Ok(Some(_)) ==> final(parser).measure() < old(parser).measure(),
        !cur_starts_type(*old(parser)) ==> (res matches Ok(None) && *final(parser) == *old(parser)),
        cur_basic(*old(parser)) is Some && !next_read_fails(*old(parser))
            && next_kind(*old(parser)) != Some(TokenKind::Star)
            ==> res == Ok::<Option<Type>, CompilerError>(Some(Type::Basic(cur_basic(*old(parser))->0)))
                && stepped(*old(parser), *final(parser)),
        gives_type(res, *final(parser), slice_at(old(parser).input(), old(parser).spot())),
    decreases old(parser).measure(), 6int,
{
    let opened = parser.consume(&Token::LeftBracket)?;
    if opened && parser.consume(&Token::RightBracket)? {
        let element_type = parse_type(parser)?;
        match element_type {
            Some(t) => {
                let location = parser.current_location();
                Ok(Some(Type::Slice(SliceType { element_type: Box::new(t), location })))
            },
            None => {
                let loc = parser.current_location();
                Err(CompilerError::syntax(loc.line, loc.column, "Expected element type in slice type"))
            },
        }
    } else {
        parse_map_type(parser)
    }
}

/// Parse map type (map<K, V>)
fn parse_map_type(parser: &mut Parser) -> (res: Result<Option<Type>>)
    requires
        old(parser).wf(),
    ensures
        advanced(*old(parser), *final(parser)),
        res matches Ok(Some(_)) ==> final(parser).measure() < old(parser).measure(),
        !cur_starts_type(*old(parser)) ==> (res matches Ok(None) && *final(parser) == *old(parser)),
        cur_basic(*old(parser)) is Some && !next_read_fails(*old(parser))
            && next_kind(*old(parser)) != Some(TokenKind::Star)
            ==> res == Ok::<Option<Type>, CompilerError>(Some(Type::Basic(cur_basic(*old(parser))->0)))
                && stepped(*old(parser), *final(parser)),
        gives_type(res, *final(parser), map_at(old(parser).input(), old(parser).spot())),
    decreases old(parser).measure(), 5int,
{
    if parser.consume(&Token::MapKw)? {
        parser.expect(&Token::Less)?;
        let key_type = match parse_type(parser)? {
            Some(t) => t,
            None => {
                let loc = parser.current_location();
                return Err(CompilerError::syntax(loc.line, loc.column, "Expected key type in map type"));
            },
        };
        parser.expect(&Token::Comma)?;
        let value_type = match parse_type(parser)? {
            Some(t) => t,
            None => {
                let loc = parser.current_location();
                return Err(CompilerError::syntax(loc.line, loc.column, "Expected value type in map type"));
            },
        };
        parser.expect(&Token::Greater)?;
        let location = parser.current_location();
        Ok(Some(Type::MapOf(MapType { key_type: Box::new(key_type), value_type: Box::new(value_type), location })))
    } else {
        parse_channel_type(parser)
    }
}

/// Parse channel type (chan T, chan<- T, <-chan T)
#[verifier::rlimit(100)]
fn parse_channel_type(parser: &mut Parser) -> (res: Result<Option<Type>>)
    requires
        old(parser).wf(),
    ensures
        advanced(*old(parser), *final(parser)),
        res matches Ok(Some(_)) ==> final(parser).measure() < old(parser).measure(),
        !cur_starts_type(*old(parser)) ==> (res matches Ok(None) && *final(parser) == *old(parser)),
        cur_basic(*old(parser)) is Some && !next_read_fails(*old(parser))
            && next_kind(*old(parser)) != Some(TokenKind::Star)
            ==> res == Ok::<Option<Type>, CompilerError>(Some(Type::Basic(cur_basic(*old(parser))->0)))
                && stepped(*old(parser), *final(parser)),
        gives_type(res, *final(parser), channel_at(old(parser).input(), old(parser).spot())),
    decreases old(parser).measure(), 4int,
{
    let ghost inp = parser.input();
    if parser.consume(&Token::Chan)? {
        let ghost s1 = parser.spot();
        let direction = if parser.consume(&Token::LeftShift)? {
            ChannelDirection::Receive
        } else {
            let minus = parser.consume(&Token::Minus)?;
            if minus && parser.consume(&Token::Greater)? {
                ChannelDirection::Send
            } else {
                ChannelDirection::Bidirectional
            }
        };
        let ghost s2 = parser.spot();
        proof {
            assert(direction_at(inp, s1) == Ok::<(ChannelDirection, Spot), Failure>((direction, s2)));
        }
        let element_type = match parse_type(parser)? {
            Some(t) => t,
            None => {
                let loc = parser.current_location();
                return Err(CompilerError::syntax(loc.line, loc.column, "Expected element type in channel type"));
            },
        };
        let ghost s3 = parser.spot();
        let buffer_size = if parser.consume(&Token::LeftBracket)? {
            let n: Option<i64> = match parser.peek() {
                Some(t) => match &t.token {
                    Token::Integer(n) => Some(*n),
                    _ => None,
                },
                None => None,
            };
            match n {
                Some(n) => {
                    parser.advance()?;
                    parser.expect(&Token::RightBracket)?;
                    Some(n as usize)
                },
                None => {
                    let loc = parser.current_location();
                    return Err(CompilerError::syntax(loc.line, loc.column, "Expected buffer size in channel type"));
                },
            }
        } else {
            None
        };
        proof {
            assert(buffer_size_at(inp, s3) == Ok::<(Option<usize>, Spot), Failure>((buffer_size, parser.spot())));
        }
        let location = parser.current_location();
        Ok(Some(Type::Channel(ChannelType { element_type: Box::new(element_type), direction, buffer_size, location })))
    } else {
        parse_pointer_type(parser)
    }
}

/// Parse pointer type (T*)
fn parse_pointer_type(parser: &mut Parser) -> (res: Result<Option<Type>>)
    requires
        old(parser).wf(),
    ensures
        advanced(*old(parser), *final(parser)),
        res matches Ok(Some(_)) ==> final(parser).measure() < old(parser).measure(),
        !cur_starts_type(*old(parser)) ==> (res matches Ok(None) && *final(parser) == *old(parser)),
        cur_basic(*old(parser)) is Some && !next_read_fails(*old(parser))
            && next_kind(*old(parser)) != Some(TokenKind::Star)
            ==> res == Ok::<Option<Type>, CompilerError>(Some(Type::Basic(cur_basic(*old(parser))->0)))
                && stepped(*old(parser), *final(parser)),
        gives_type(res, *final(parser), pointer_at(old(parser).input(), old(parser).spot())),
    decreases old(parser).measure(), 3int,
{
    let base_type = parse_tuple_type(parser)?;
    match base_type {
        Some(base) => {
            if parser.consume(&Token::Star)? {
                let location = parser.current_location();
                Ok(Some(Type::Pointer(PointerType {
                    pointee_type: Box::new(base),
                    mutable: false,
                    reference_counted: false,
                    location,
                })))
            } else {
                Ok(Some(base))
            }
        },
        None => Ok(None),
    }
}

/// Parse tuple type ((T1, T2, T3))
#[verifier::rlimit(100)]
fn parse_tuple_type(parser: &mut Parser) -> (res: Result<Option<Type>>)
    requires
        old(parser).wf(),
    ensures
        advanced(*old(parser), *final(parser)),
        res matches Ok(Some(_)) ==> final(parser).measure() < old(parser).measure(),
        !cur_starts_type(*old(parser)) ==> (res matches Ok(None) && *final(parser) == *old(parser)),
        cur_basic(*old(parser)) is Some && !next_read_fails(*old(parser))
            ==> res == Ok::<Option<Type>, CompilerError>(Some(Type::Basic(cur_basic(*old(parser))->0)))
                && stepped(*old(parser), *final(parser)),
        gives_type(res, *final(parser), tuple_at(old(parser).input(), old(parser).spot())),
    decreases old(parser).measure(), 2int,
{
    let ghost inp = parser.input();
    let ghost s0 = parser.spot();
    if parser.consume(&Token::LeftParen)? {
        proof {
            assert(smaller(inp, parser.spot(), s0));
        }
        parse_tuple_items(parser)
    } else {
        parse_primary_type(parser)
    }
}

/// Parse the types in parentheses after `(`, and `)`: none is `void`, one is itself, more a tuple
#[verifier::rlimit(100)]
fn parse_tuple_items(parser: &mut Parser) -> (res: Result<Option<Type>>)
    requires
        old(parser).wf(),
    ensures
        advanced(*old(parser), *final(parser)),
        res is Ok ==> res matches Ok(Some(_)),
        gives_type(res, *final(parser), tuple_items_at(old(parser).input(), old(parser).spot())),
    decreases old(parser).measure(), 17int,
{
    let mut element_types = parse_type_list(parser, &Token::RightParen)?;
    proof {
        lemma_models_len(element_types@);
    }
    parser.expect(&Token::RightParen)?;
    if element_types.len() == 0 {
        Ok(Some(Type::Basic(BasicType::Void)))
    } else if element_types.len() == 1 {
        let ghost ts = element_types@;
        let t = element_types.remove(0);
        proof {
            assert(ts =~= seq![t]);
            lemma_models_single(ts);
        }
        Ok(Some(t))
    } else {
        let location = parser.current_location();
        Ok(Some(Type::Tuple(TupleType { element_types, location })))
    }
}

/// Parse primary type (basic types, identifiers, etc.)
fn parse_primary_type(parser: &mut Parser) -> (res: Result<Option<Type>>)
    requires
        old(parser).wf(),
    ensures
        advanced(*old(parser), *final(parser)),
        res matches Ok(Some(_)) ==> final(parser).measure() < old(parser).measure(),
        !(cur_basic(*old(parser)) is Some || old(parser).cur_kind() == Some(TokenKind::Identifier))
            ==> (res matches Ok(None) && *final(parser) == *old(parser)),
        cur_basic(*old(parser)) is Some ==> {
            &&& next_read_fails(*old(parser)) ==> res == Err::<Option<Type>, CompilerError>(old(parser).lex_error()->0)
            &&& !next_read_fails(*old(parser)) ==> res == Ok::<Option<Type>, CompilerError>(Some(Type::Basic(cur_basic(*old(parser))->0)))
                && stepped(*old(parser), *final(parser))
        },
        cur_identifier(*old(parser)) is Some && !next_read_fails(*old(parser))
            && next_kind(*old(parser)) != Some(TokenKind::Less)
            && next_kind(*old(parser)) != Some(TokenKind::LeftBrace)
            ==> res == Ok::<Option<Type>, CompilerError>(Some(Type::Generic(cur_identifier(*old(parser))->0))),
        gives_type(res, *final(parser), primary_type_at(old(parser).input(), old(parser).spot())),
    decreases old(parser).measure(), 1int,
{
    let kind = match parser.current_kind() {
        Some(k) => k,
        None => {
            return Ok(None);
        },
    };
    match basic_type_for(kind) {
        Some(b) => {
            return match parser.advance() {
                Ok(()) => Ok(Some(Type::Basic(b))),
                Err(e) => Err(e),
            };
        },
        None => {},
    }
    let name: String = match parser.peek() {
        Some(t) => match &t.token {
            Token::Identifier(name) => name.clone(),
            _ => {
                return Ok(None);
            },
        },
        None => {
            return Ok(None);
        },
    };
    parser.advance()?;
    parse_named_type(parser, name)
}

/// Parse the type arguments of a named type whose name was just read, and make the type: a
/// struct type before `{`, a generic name without arguments, an alias with them
#[verifier::rlimit(100)]
fn parse_named_type(parser: &mut Parser, name: String) -> (res: Result<Option<Type>>)
    requires
        old(parser).wf(),
    ensures
        advanced(*old(parser), *final(parser)),
        res is Ok ==> res matches Ok(Some(_)),
        old(parser).cur_kind() != Some(TokenKind::Less) && old(parser).cur_kind() != Some(TokenKind::LeftBrace)
            ==> res == Ok::<Option<Type>, CompilerError>(Some(Type::Generic(name))) && *final(parser) == *old(parser),
        gives_type(res, *final(parser), named_type_at(old(parser).input(), old(parser).spot(), name@)),
    decreases old(parser).measure(), 0int,
{
    let type_args: Vec<Type> = if parser.consume(&Token::Less)? {
        let type_args = parse_type_list(parser, &Token::Greater)?;
        parser.expect(&Token::Greater)?;
        type_args
    } else {
        let type_args: Vec<Type> = Vec::new();
        proof {
            assert(models(type_args@) =~= Seq::<TypeModel>::empty());
        }
        type_args
    };
    if parser.check(&Token::LeftBrace) {
        let location = parser.current_location();
        Ok(Some(Type::Struct(StructType { name, type_args, location })))
    } else if type_args.len() == 0 {
        Ok(Some(Type::Generic(name)))
    } else {
        let location = parser.current_location();
        Ok(Some(Type::Alias(AliasType { name, type_args, location })))
    }
}

/// Parse types separated by commas, up to a token of the kind of `close`, which is left unread
#[verifier::rlimit(100)]
fn parse_type_list(parser: &mut Parser, close: &Token) -> (res: Result<Vec<Type>>)
    requires
        old(parser).wf(),
    ensures
        advanced(*old(parser), *final(parser)),
        gives_types(res, *final(parser), list_at(old(parser).input(), old(parser).spot(), close.spec_kind())),
    decreases old(parser).measure(), 16int,
{
    let ghost inp = parser.input();
    let ghost goal = list_at(inp, parser.spot(), close.spec_kind());
    let mut types: Vec<Type> = Vec::new();
    proof {
        assert(models(types@) =~= Seq::<TypeModel>::empty());
    }
    if parser.check(close) {
        return Ok(types);
    }
    loop
        invariant_except_break
            type_list_at(inp, parser.spot(), models(types@)) == goal,
        invariant
            advanced(*old(parser), *parser),
            parser.input() == inp,
            goal == list_at(old(parser).input(), old(parser).spot(), close.spec_kind()),
        ensures
            advanced(*old(parser), *parser),
            goal == TypesParse::Parsed(models(types@), parser.spot()),
        decreases parser.measure(),
    {
        let ghost sb = parser.spot();
        proof {
            assert(type_list_at(inp, sb, models(types@)) == goal);
        }
        match parse_type(parser)? {
            Some(t) => {
                proof {
                    lemma_models_push(types@, t);
                }
                types.push(t);
            },
            None => {},
        }
        if !parser.consume(&Token::Comma)? {
            break;
        }
        proof {
            assert(smaller(inp, parser.spot(), sb));
        }
    }
    Ok(types)
}

} // verus!
