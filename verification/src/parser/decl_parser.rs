//! Declaration parser for Nature language
use vstd::prelude::*;
use crate::ast::decl::{Declaration, FunctionDecl, GenericParam, VariableDecl, ConstantDecl, TypeDecl, StructDecl, InterfaceDecl, InterfaceMethod, ImportDecl, ImplDecl, Attribute};
use crate::ast::types::{Type, BasicType, StructType, PointerType, Parameter};
use crate::ast::stmt::Statement;
use crate::ast::{Block, StructField};
use crate::ast::types::{TypeModel, models, lemma_models_push};
use crate::error::{CompilerError, Location, Result};
use crate::lexer::token::{Token, TokenKind, TokenWithLocation};
use crate::text::{join, text_eq};
use super::{Parser, advanced, kind_of, location_of, TokenInput, Spot, Failure, read_fails_at, read_at, measure_at, smaller,
    lexical_failure, stalled, fails_with, consume_at, expect_at, syntax_error_at, expected_message};
use super::expr_parser::{parse_expression, parse_expression_list, cur_name};
use super::stmt_parser::{parse_statement, stmt_at, StmtParse, opt_stmt_model, gives_stmt, const_decl_at};
use crate::ast::stmt::{StmtModel, stmt_models, lemma_stmt_models_push};
use super::type_parser::{parse_type, type_at, TypeParse};

verus! {

/// A generic parameter as a mathematical value.
pub struct GenericModel {
    pub name: Seq<char>,
    pub constraints: Seq<TypeModel>,
    pub location: Location,
}

/// A struct field as a mathematical value; whether it has a default value.
pub struct FieldModel {
    pub name: Seq<char>,
    pub field_type: TypeModel,
    pub has_default: bool,
    pub tag: Option<Seq<char>>,
    pub location: Location,
}

/// A struct as a mathematical value: its name, generic parameters, fields, how many methods it
/// has, and its location.
pub struct StructModel {
    pub name: Seq<char>,
    pub generics: Seq<GenericModel>,
    pub fields: Seq<FieldModel>,
    pub method_count: nat,
    pub location: Location,
}

/// The model of a generic parameter.
pub open spec fn generic_model(g: GenericParam) -> GenericModel {
    GenericModel { name: g.name@, constraints: models(g.constraints@), location: g.location }
}

/// The models of generic parameters, in order.
pub open spec fn generic_models(gs: Seq<GenericParam>) -> Seq<GenericModel>
    decreases gs.len(),
{
    if gs.len() == 0 {
        Seq::empty()
    } else {
        generic_models(gs.drop_last()).push(generic_model(gs.last()))
    }
}

/// Adding a generic parameter adds its model.
pub proof fn lemma_generic_models_push(gs: Seq<GenericParam>, g: GenericParam)
    ensures
        generic_models(gs.push(g)) == generic_models(gs).push(generic_model(g)),
{
    assert(gs.push(g).drop_last() =~= gs);
}

/// The model of a struct field.
pub open spec fn field_model(f: StructField) -> FieldModel {
    FieldModel {
        name: f.name@,
        field_type: f.field_type.model(),
        has_default: f.default_value is Some,
        tag: match f.field_tag {
            Some(t) => Some(t@),
            None => None,
        },
        location: f.location,
    }
}

/// The models of struct fields, in order.
pub open spec fn field_models(fs: Seq<StructField>) -> Seq<FieldModel>
    decreases fs.len(),
{
    if fs.len() == 0 {
        Seq::empty()
    } else {
        field_models(fs.drop_last()).push(field_model(fs.last()))
    }
}

/// Adding a struct field adds its model.
pub proof fn lemma_field_models_push(fs: Seq<StructField>, f: StructField)
    ensures
        field_models(fs.push(f)) == field_models(fs).push(field_model(f)),
{
    assert(fs.push(f).drop_last() =~= fs);
}

/// The model of a struct declaration.
pub open spec fn struct_model(d: StructDecl) -> StructModel {
    StructModel {
        name: d.name@,
        generics: generic_models(d.generics@),
        fields: field_models(d.fields@),
        method_count: d.methods@.len(),
        location: d.location,
    }
}

/// What parsing from a spot gives: a failure, or a value and where the parser then stands.
pub enum Parsed<T> {
    Failed(Failure),
    Done(T, Spot),
}

/// The types of a generic parameter's constraints, separated by `+`, after those in `acc`.
pub open spec fn constraints_at(inp: TokenInput, s: Spot, acc: Seq<TypeModel>) -> Parsed<Seq<TypeModel>>
    decreases measure_at(inp, s),
{
    match type_at(inp, s) {
        TypeParse::Failed(f) => Parsed::Failed(f),
        TypeParse::Parsed(t, s1) => {
            let acc1 = match t {
                Some(t) => acc.push(t),
                None => acc,
            };
            match consume_at(inp, s1, TokenKind::Plus) {
                Err(f) => Parsed::Failed(f),
                Ok((false, s2)) => Parsed::Done(acc1, s2),
                Ok((true, s2)) => if smaller(inp, s2, s) {
                    constraints_at(inp, s2, acc1)
                } else {
                    Parsed::Failed(stalled())
                },
            }
        },
    }
}

/// One generic parameter at `s`, a name with constraints after `:`, added to `acc`; a place
/// with no name adds nothing.
pub open spec fn generic_param_at(inp: TokenInput, s: Spot, acc: Seq<GenericModel>) -> Parsed<Seq<GenericModel>> {
    match s.current {
        Some(t) => match t.token {
            Token::Identifier(name) => if read_fails_at(inp, s) {
                Parsed::Failed(lexical_failure(inp))
            } else {
                let s1 = read_at(inp, s);
                let cs = match consume_at(inp, s1, TokenKind::Colon) {
                    Err(f) => Parsed::Failed(f),
                    Ok((false, s2)) => Parsed::Done(Seq::empty(), s2),
                    Ok((true, s2)) => constraints_at(inp, s2, Seq::empty()),
                };
                match cs {
                    Parsed::Failed(f) => Parsed::Failed(f),
                    Parsed::Done(cs, s3) => Parsed::Done(
                        acc.push(GenericModel { name: name@, constraints: cs, location: location_of(s3.current) }), s3),
                }
            },
            _ => Parsed::Done(acc, s),
        },
        None => Parsed::Done(acc, s),
    }
}

/// Generic parameters separated by commas, after those in `acc`.
pub open spec fn generic_list_at(inp: TokenInput, s: Spot, acc: Seq<GenericModel>) -> Parsed<Seq<GenericModel>>
    decreases measure_at(inp, s),
{
    match generic_param_at(inp, s, acc) {
        Parsed::Failed(f) => Parsed::Failed(f),
        Parsed::Done(acc1, s1) => match consume_at(inp, s1, TokenKind::Comma) {
            Err(f) => Parsed::Failed(f),
            Ok((false, s2)) => Parsed::Done(acc1, s2),
            Ok((true, s2)) => if smaller(inp, s2, s) {
                generic_list_at(inp, s2, acc1)
            } else {
                Parsed::Failed(stalled())
            },
        },
    }
}

/// The generic parameters after `<`, and `>`.
pub open spec fn generics_at(inp: TokenInput, s: Spot) -> Parsed<Seq<GenericModel>> {
    let gs = if kind_of(s.current) == Some(TokenKind::Greater) {
        Parsed::Done(Seq::empty(), s)
    } else {
        generic_list_at(inp, s, Seq::empty())
    };
    match gs {
        Parsed::Failed(f) => Parsed::Failed(f),
        Parsed::Done(gs, s1) => match expect_at(inp, s1, Token::Greater) {
            Err(f) => Parsed::Failed(f),
            Ok(s2) => Parsed::Done(gs, s2),
        },
    }
}

/// A field's tag after its type: a string in backticks, or nothing.
pub open spec fn field_tag_at(inp: TokenInput, s: Spot) -> Parsed<Option<Seq<char>>> {
    match consume_at(inp, s, TokenKind::Backtick) {
        Err(f) => Parsed::Failed(f),
        Ok((false, s1)) => Parsed::Done(None, s1),
        Ok((true, s1)) => match s1.current {
            Some(t) => match t.token {
                Token::String(tag) => if read_fails_at(inp, s1) {
                    Parsed::Failed(lexical_failure(inp))
                } else {
                    match expect_at(inp, read_at(inp, s1), Token::Backtick) {
                        Err(f) => Parsed::Failed(f),
                        Ok(s3) => Parsed::Done(Some(tag@), s3),
                    }
                },
                _ => Parsed::Failed(Failure::Syntax(location_of(s1.current), "Expected field tag string"@)),
            },
            None => Parsed::Failed(Failure::Syntax(location_of(s1.current), "Expected field tag string"@)),
        },
    }
}

/// One struct field at `s`, a name, a type and a tag, added to `acc`; a token that is no name
/// is skipped.
pub open spec fn field_at(inp: TokenInput, s: Spot, acc: Seq<FieldModel>) -> Parsed<Seq<FieldModel>> {
    match s.current {
        Some(t) => match t.token {
            Token::Identifier(name) => if read_fails_at(inp, s) {
                Parsed::Failed(lexical_failure(inp))
            } else {
                match type_at(inp, read_at(inp, s)) {
                    TypeParse::Failed(f) => Parsed::Failed(f),
                    TypeParse::Parsed(None, s2) => Parsed::Failed(
                        Failure::Syntax(location_of(s2.current), "Expected field type"@)),
                    TypeParse::Parsed(Some(ty), s2) => match field_tag_at(inp, s2) {
                        Parsed::Failed(f) => Parsed::Failed(f),
                        Parsed::Done(tag, s3) => Parsed::Done(acc.push(FieldModel {
                            name: name@,
                            field_type: ty,
                            has_default: false,
                            tag,
                            location: location_of(s3.current),
                        }), s3),
                    },
                }
            },
            _ => if read_fails_at(inp, s) {
                Parsed::Failed(lexical_failure(inp))
            } else {
                Parsed::Done(acc, read_at(inp, s))
            },
        },
        None => Parsed::Done(acc, s),
    }
}

/// The fields of a struct body after those in `acc`, up to and including the closing `}`.
pub open spec fn fields_at(inp: TokenInput, s: Spot, acc: Seq<FieldModel>) -> Parsed<Seq<FieldModel>>
    decreases measure_at(inp, s),
{
    if kind_of(s.current) == Some(TokenKind::RightBrace) || s.current is None {
        match expect_at(inp, s, Token::RightBrace) {
            Err(f) => Parsed::Failed(f),
            Ok(s1) => Parsed::Done(acc, s1),
        }
    } else {
        match field_at(inp, s, acc) {
            Parsed::Failed(f) => Parsed::Failed(f),
            Parsed::Done(acc1, s1) => if smaller(inp, s1, s) {
                fields_at(inp, s1, acc1)
            } else {
                Parsed::Failed(stalled())
            },
        }
    }
}

/// A Go-style struct named `name` from `s`: generic parameters in `<` and `>`, then its fields
/// in braces; it has no methods.
pub open spec fn go_struct_at(inp: TokenInput, s: Spot, name: Seq<char>) -> Parsed<StructModel> {
    let gs = match consume_at(inp, s, TokenKind::Less) {
        Err(f) => Parsed::Failed(f),
        Ok((false, s1)) => Parsed::Done(Seq::empty(), s1),
        Ok((true, s1)) => generics_at(inp, s1),
    };
    match gs {
        Parsed::Failed(f) => Parsed::Failed(f),
        Parsed::Done(gs, s2) => match expect_at(inp, s2, Token::LeftBrace) {
            Err(f) => Parsed::Failed(f),
            Ok(s3) => match fields_at(inp, s3, Seq::empty()) {
                Parsed::Failed(f) => Parsed::Failed(f),
                Parsed::Done(fs, s4) => Parsed::Done(StructModel {
                    name,
                    generics: gs,
                    fields: fs,
                    method_count: 0,
                    location: location_of(s4.current),
                }, s4),
            },
        },
    }
}

/// A Go-style struct declaration: `type`, a name, `struct`, and the struct.
pub open spec fn go_struct_decl_at(inp: TokenInput, s: Spot) -> Parsed<StructModel> {
    match expect_at(inp, s, Token::Type) {
        Err(f) => Parsed::Failed(f),
        Ok(s1) => match cur_identifier_at(s1) {
            Some(name) => if read_fails_at(inp, s1) {
                Parsed::Failed(lexical_failure(inp))
            } else {
                match expect_at(inp, read_at(inp, s1), Token::Struct) {
                    Err(f) => Parsed::Failed(f),
                    Ok(s3) => go_struct_at(inp, s3, name),
                }
            },
            None => Parsed::Failed(Failure::Syntax(location_of(s1.current), "Expected struct name after 'type'"@)),
        },
    }
}

/// The name the current token at `s` carries, if it is an identifier.
pub open spec fn cur_identifier_at(s: Spot) -> Option<Seq<char>> {
    match s.current {
        Some(t) => match t.token {
            Token::Identifier(name) => Some(name@),
            _ => None,
        },
        None => None,
    }
}

/// A type declaration as a mathematical value.
pub struct TypeDeclModel {
    pub name: Seq<char>,
    pub type_def: TypeModel,
    pub location: Location,
}

/// The model of a type declaration.
pub open spec fn type_decl_model(d: TypeDecl) -> TypeDeclModel {
    TypeDeclModel { name: d.name@, type_def: d.type_def.model(), location: d.location }
}

/// A type declaration: `type`, a name, then `=`, a type and `;`, or a Go-style struct, which the
/// declaration describes by a struct type of that name, where the struct ends.
pub open spec fn type_decl_at(inp: TokenInput, s: Spot) -> Parsed<TypeDeclModel> {
    match expect_at(inp, s, Token::Type) {
        Err(f) => Parsed::Failed(f),
        Ok(s1) => match cur_identifier_at(s1) {
            Some(name) => if read_fails_at(inp, s1) {
                Parsed::Failed(lexical_failure(inp))
            } else {
                match consume_at(inp, read_at(inp, s1), TokenKind::Struct) {
                    Err(f) => Parsed::Failed(f),
                    Ok((true, s3)) => match go_struct_at(inp, s3, name) {
                        Parsed::Failed(f) => Parsed::Failed(f),
                        Parsed::Done(m, s4) => Parsed::Done(TypeDeclModel {
                            name: m.name,
                            type_def: TypeModel::Struct(m.name, Seq::empty(), m.location),
                            location: m.location,
                        }, s4),
                    },
                    Ok((false, s3)) => match expect_at(inp, s3, Token::Assign) {
                        Err(f) => Parsed::Failed(f),
                        Ok(s4) => match type_at(inp, s4) {
                            TypeParse::Failed(f) => Parsed::Failed(f),
                            TypeParse::Parsed(None, s5) => Parsed::Failed(
                                Failure::Syntax(location_of(s5.current), "Expected type definition after '='"@)),
                            TypeParse::Parsed(Some(t), s5) => match expect_at(inp, s5, Token::Semicolon) {
                                Err(f) => Parsed::Failed(f),
                                Ok(s6) => Parsed::Done(TypeDeclModel { name, type_def: t, location: location_of(s6.current) }, s6),
                            },
                        },
                    },
                }
            },
            None => Parsed::Failed(Failure::Syntax(location_of(s1.current), "Expected type name after 'type'"@)),
        },
    }
}

/// A parameter as a mathematical value; whether it has a default value.
pub struct ParamModel {
    pub name: Seq<char>,
    pub param_type: TypeModel,
    pub has_default: bool,
    pub location: Location,
}

/// The model of a parameter.
pub open spec fn param_model(p: Parameter) -> ParamModel {
    ParamModel { name: p.name@, param_type: p.param_type.model(), has_default: p.default_value is Some, location: p.location }
}

/// The models of parameters, in order.
pub open spec fn param_models(ps: Seq<Parameter>) -> Seq<ParamModel>
    decreases ps.len(),
{
    if ps.len() == 0 {
        Seq::empty()
    } else {
        param_models(ps.drop_last()).push(param_model(ps.last()))
    }
}

/// Adding a parameter adds its model.
pub proof fn lemma_param_models_push(ps: Seq<Parameter>, p: Parameter)
    ensures
        param_models(ps.push(p)) == param_models(ps).push(param_model(p)),
{
    assert(ps.push(p).drop_last() =~= ps);
}

/// An interface method's signature as a mathematical value.
pub struct MethodSigModel {
    pub name: Seq<char>,
    pub params: Seq<ParamModel>,
    pub return_type: Option<TypeModel>,
    pub location: Location,
}

/// The model of an interface method.
pub open spec fn method_sig_model(m: InterfaceMethod) -> MethodSigModel {
    MethodSigModel {
        name: m.name@,
        params: param_models(m.parameters@),
        return_type: match m.return_type {
            Some(t) => Some(t.model()),
            None => None,
        },
        location: m.location,
    }
}

/// The models of interface methods, in order.
pub open spec fn method_sig_models(ms: Seq<InterfaceMethod>) -> Seq<MethodSigModel>
    decreases ms.len(),
{
    if ms.len() == 0 {
        Seq::empty()
    } else {
        method_sig_models(ms.drop_last()).push(method_sig_model(ms.last()))
    }
}

/// Adding an interface method adds its model.
pub proof fn lemma_method_sig_models_push(ms: Seq<InterfaceMethod>, m: InterfaceMethod)
    ensures
        method_sig_models(ms.push(m)) == method_sig_models(ms).push(method_sig_model(m)),
{
    assert(ms.push(m).drop_last() =~= ms);
}

/// An interface as a mathematical value.
pub struct InterfaceModel {
    pub name: Seq<char>,
    pub generics: Seq<GenericModel>,
    pub methods: Seq<MethodSigModel>,
    pub location: Location,
}

/// The model of an interface declaration.
pub open spec fn interface_model(d: InterfaceDecl) -> InterfaceModel {
    InterfaceModel {
        name: d.name@,
        generics: generic_models(d.generics@),
        methods: method_sig_models(d.methods@),
        location: d.location,
    }
}

/// One typed parameter at `s`, a name, `:` and a type, added to `acc`; a place with no name
/// adds nothing.
pub open spec fn typed_param_at(inp: TokenInput, s: Spot, acc: Seq<ParamModel>) -> Parsed<Seq<ParamModel>> {
    match cur_identifier_at(s) {
        Some(name) => if read_fails_at(inp, s) {
            Parsed::Failed(lexical_failure(inp))
        } else {
            match expect_at(inp, read_at(inp, s), Token::Colon) {
                Err(f) => Parsed::Failed(f),
                Ok(s2) => match type_at(inp, s2) {
                    TypeParse::Failed(f) => Parsed::Failed(f),
                    TypeParse::Parsed(None, s3) => Parsed::Failed(
                        Failure::Syntax(location_of(s3.current), "Expected parameter type"@)),
                    TypeParse::Parsed(Some(t), s3) => Parsed::Done(
                        acc.push(ParamModel { name, param_type: t, has_default: false, location: location_of(s3.current) }), s3),
                },
            }
        },
        None => Parsed::Done(acc, s),
    }
}

/// Typed parameters separated by commas, after those in `acc`.
pub open spec fn typed_param_list_at(inp: TokenInput, s: Spot, acc: Seq<ParamModel>) -> Parsed<Seq<ParamModel>>
    decreases measure_at(inp, s),
{
    match typed_param_at(inp, s, acc) {
        Parsed::Failed(f) => Parsed::Failed(f),
        Parsed::Done(acc1, s1) => match consume_at(inp, s1, TokenKind::Comma) {
            Err(f) => Parsed::Failed(f),
            Ok((false, s2)) => Parsed::Done(acc1, s2),
            Ok((true, s2)) => if smaller(inp, s2, s) {
                typed_param_list_at(inp, s2, acc1)
            } else {
                Parsed::Failed(stalled())
            },
        },
    }
}

/// The typed parameters before `)`, after those in `acc`: none when `)` comes at once.
pub open spec fn typed_params_at(inp: TokenInput, s: Spot, acc: Seq<ParamModel>) -> Parsed<Seq<ParamModel>> {
    if kind_of(s.current) == Some(TokenKind::RightParen) {
        Parsed::Done(acc, s)
    } else {
        typed_param_list_at(inp, s, acc)
    }
}

/// An interface method at `s`: a name, typed parameters in parentheses, `->` and a return
/// type, and `;`; nothing where no name stands.
pub open spec fn interface_method_at(inp: TokenInput, s: Spot) -> Parsed<Option<MethodSigModel>> {
    match cur_identifier_at(s) {
        None => Parsed::Done(None, s),
        Some(name) => if read_fails_at(inp, s) {
            Parsed::Failed(lexical_failure(inp))
        } else {
            match expect_at(inp, read_at(inp, s), Token::LeftParen) {
                Err(f) => Parsed::Failed(f),
                Ok(s2) => match typed_params_at(inp, s2, Seq::empty()) {
                    Parsed::Failed(f) => Parsed::Failed(f),
                    Parsed::Done(ps, s3) => match expect_at(inp, s3, Token::RightParen) {
                        Err(f) => Parsed::Failed(f),
                        Ok(s4) => {
                            let ret = match consume_at(inp, s4, TokenKind::Arrow) {
                                Err(f) => Parsed::Failed(f),
                                Ok((false, s5)) => Parsed::Done(None, s5),
                                Ok((true, s5)) => match type_at(inp, s5) {
                                    TypeParse::Failed(f) => Parsed::Failed(f),
                                    TypeParse::Parsed(r, s6) => Parsed::Done(r, s6),
                                },
                            };
                            match ret {
                                Parsed::Failed(f) => Parsed::Failed(f),
                                Parsed::Done(r, s6) => match expect_at(inp, s6, Token::Semicolon) {
                                    Err(f) => Parsed::Failed(f),
                                    Ok(s7) => Parsed::Done(Some(MethodSigModel {
                                        name,
                                        params: ps,
                                        return_type: r,
                                        location: location_of(s7.current),
                                    }), s7),
                                },
                            }
                        },
                    },
                },
            }
        },
    }
}

/// Interface methods after those in `acc`, up to a `}` or a place where no method stands.
pub open spec fn interface_methods_at(inp: TokenInput, s: Spot, acc: Seq<MethodSigModel>) -> Parsed<Seq<MethodSigModel>>
    decreases measure_at(inp, s),
{
    if kind_of(s.current) == Some(TokenKind::RightBrace) {
        Parsed::Done(acc, s)
    } else {
        match interface_method_at(inp, s) {
            Parsed::Failed(f) => Parsed::Failed(f),
            Parsed::Done(None, s1) => Parsed::Done(acc, s1),
            Parsed::Done(Some(m), s1) => if smaller(inp, s1, s) {
                interface_methods_at(inp, s1, acc.push(m))
            } else {
                Parsed::Failed(stalled())
            },
        }
    }
}

/// An interface of a name and generic parameters whose methods were read as `o`, closed by `}`.
pub open spec fn interface_close(inp: TokenInput, name: Seq<char>, gs: Seq<GenericModel>, o: Parsed<Seq<MethodSigModel>>)
    -> Parsed<InterfaceModel>
{
    match o {
        Parsed::Failed(f) => Parsed::Failed(f),
        Parsed::Done(ms, s5) => match expect_at(inp, s5, Token::RightBrace) {
            Err(f) => Parsed::Failed(f),
            Ok(s6) => Parsed::Done(InterfaceModel {
                name,
                generics: gs,
                methods: ms,
                location: location_of(s6.current),
            }, s6),
        },
    }
}

/// An interface declaration: `interface`, a name, generic parameters in `<` and `>`, and its
/// methods in braces.
pub open spec fn interface_decl_at(inp: TokenInput, s: Spot) -> Parsed<InterfaceModel> {
    match expect_at(inp, s, Token::Interface) {
        Err(f) => Parsed::Failed(f),
        Ok(s1) => match cur_identifier_at(s1) {
            None => Parsed::Failed(Failure::Syntax(location_of(s1.current), "Expected interface name after 'interface'"@)),
            Some(name) => if read_fails_at(inp, s1) {
                Parsed::Failed(lexical_failure(inp))
            } else {
                let gs = match consume_at(inp, read_at(inp, s1), TokenKind::Less) {
                    Err(f) => Parsed::Failed(f),
                    Ok((false, s3)) => Parsed::Done(Seq::empty(), s3),
                    Ok((true, s3)) => generics_at(inp, s3),
                };
                match gs {
                    Parsed::Failed(f) => Parsed::Failed(f),
                    Parsed::Done(gs, s3) => match expect_at(inp, s3, Token::LeftBrace) {
                        Err(f) => Parsed::Failed(f),
                        Ok(s4) => interface_close(inp, name, gs, interface_methods_at(inp, s4, Seq::empty())),
                    },
                }
            },
        },
    }
}

/// The texts of strings, in order.
pub open spec fn texts(v: Seq<String>) -> Seq<Seq<char>> {
    v.map_values(|x: String| x@)
}

/// The parts of a module path after those in `parts`: each after `.`, a name; a `.` followed by
/// `import` ends the path.
pub open spec fn path_rest_at(inp: TokenInput, s: Spot, parts: Seq<Seq<char>>) -> Parsed<Seq<Seq<char>>>
    decreases measure_at(inp, s),
{
    match consume_at(inp, s, TokenKind::Dot) {
        Err(f) => Parsed::Failed(f),
        Ok((false, s1)) => Parsed::Done(parts, s1),
        Ok((true, s1)) => if kind_of(s1.current) == Some(TokenKind::Import) {
            Parsed::Done(parts, s1)
        } else {
            match cur_identifier_at(s1) {
                None => Parsed::Failed(Failure::Syntax(location_of(s1.current), "Expected module name after '.'"@)),
                Some(n) => if read_fails_at(inp, s1) {
                    Parsed::Failed(lexical_failure(inp))
                } else if smaller(inp, read_at(inp, s1), s) {
                    path_rest_at(inp, read_at(inp, s1), parts.push(n))
                } else {
                    Parsed::Failed(stalled())
                },
            }
        },
    }
}

/// A module path: names joined by `.`.
pub open spec fn module_path_at(inp: TokenInput, s: Spot) -> Parsed<Seq<char>> {
    match cur_identifier_at(s) {
        None => Parsed::Failed(Failure::Syntax(location_of(s.current), "Expected module name"@)),
        Some(n) => if read_fails_at(inp, s) {
            Parsed::Failed(lexical_failure(inp))
        } else {
            match path_rest_at(inp, read_at(inp, s), seq![n]) {
                Parsed::Failed(f) => Parsed::Failed(f),
                Parsed::Done(parts, s1) => Parsed::Done(crate::text::joined(parts, "."@), s1),
            }
        },
    }
}

/// The names imported after `import` in a `from` import, after those in `acc`, separated by
/// commas.
pub open spec fn import_items_at(inp: TokenInput, s: Spot, acc: Seq<Seq<char>>) -> Parsed<Seq<Seq<char>>>
    decreases measure_at(inp, s),
{
    match cur_identifier_at(s) {
        None => Parsed::Done(acc, s),
        Some(n) => if read_fails_at(inp, s) {
            Parsed::Failed(lexical_failure(inp))
        } else {
            match consume_at(inp, read_at(inp, s), TokenKind::Comma) {
                Err(f) => Parsed::Failed(f),
                Ok((false, s2)) => Parsed::Done(acc.push(n), s2),
                Ok((true, s2)) => if smaller(inp, s2, s) {
                    import_items_at(inp, s2, acc.push(n))
                } else {
                    Parsed::Failed(stalled())
                },
            }
        },
    }
}

/// An import declaration as a mathematical value.
pub struct ImportModel {
    pub path: Seq<char>,
    pub items: Option<Seq<Seq<char>>>,
    pub alias: Option<Seq<char>>,
    pub location: Location,
}

/// The model of an import declaration.
pub open spec fn import_model(d: ImportDecl) -> ImportModel {
    ImportModel {
        path: d.path@,
        items: match d.items {
            Some(v) => Some(texts(v@)),
            None => None,
        },
        alias: match d.alias {
            Some(a) => Some(a@),
            None => None,
        },
        location: d.location,
    }
}

/// The alias after `as`, if any.
pub open spec fn alias_at(inp: TokenInput, s: Spot) -> Parsed<Option<Seq<char>>> {
    match consume_at(inp, s, TokenKind::As) {
        Err(f) => Parsed::Failed(f),
        Ok((false, s1)) => Parsed::Done(None, s1),
        Ok((true, s1)) => match cur_identifier_at(s1) {
            None => Parsed::Failed(Failure::Syntax(location_of(s1.current), "Expected alias name after 'as'"@)),
            Some(a) => if read_fails_at(inp, s1) {
                Parsed::Failed(lexical_failure(inp))
            } else {
                Parsed::Done(Some(a), read_at(inp, s1))
            },
        },
    }
}

/// A `from` import of a module path whose names were read as `o`, with an optional `;`.
pub open spec fn from_import_close(inp: TokenInput, path: Seq<char>, o: Parsed<Seq<Seq<char>>>) -> Parsed<ImportModel> {
    match o {
        Parsed::Failed(f) => Parsed::Failed(f),
        Parsed::Done(items, s4) => match consume_at(inp, s4, TokenKind::Semicolon) {
            Err(f) => Parsed::Failed(f),
            Ok((_, s5)) => Parsed::Done(
                ImportModel { path, items: Some(items), alias: None, location: location_of(s5.current) }, s5),
        },
    }
}

/// An import declaration: `from`, a module path, `import` and names, or `import`, a module path
/// and an alias after `as`; either may end with `;`.
pub open spec fn import_decl_at(inp: TokenInput, s: Spot) -> Parsed<ImportModel> {
    match consume_at(inp, s, TokenKind::From) {
        Err(f) => Parsed::Failed(f),
        Ok((true, s1)) => match module_path_at(inp, s1) {
            Parsed::Failed(f) => Parsed::Failed(f),
            Parsed::Done(path, s2) => match expect_at(inp, s2, Token::Import) {
                Err(f) => Parsed::Failed(f),
                Ok(s3) => from_import_close(inp, path, import_items_at(inp, s3, Seq::empty())),
            },
        },
        Ok((false, s1)) => match expect_at(inp, s1, Token::Import) {
            Err(f) => Parsed::Failed(f),
            Ok(s2) => match module_path_at(inp, s2) {
                Parsed::Failed(f) => Parsed::Failed(f),
                Parsed::Done(path, s3) => match alias_at(inp, s3) {
                    Parsed::Failed(f) => Parsed::Failed(f),
                    Parsed::Done(alias, s4) => match consume_at(inp, s4, TokenKind::Semicolon) {
                        Err(f) => Parsed::Failed(f),
                        Ok((_, s5)) => Parsed::Done(
                            ImportModel { path, items: None, alias, location: location_of(s5.current) }, s5),
                    },
                },
            },
        },
    }
}

/// What parsing a function's parameters gives: a failure, a default value (an expression, which
/// this description leaves open, with all that follows), or the parameters and where they end.
pub enum ParamsParse {
    Failed(Failure),
    Open,
    Done(Seq<ParamModel>, Spot),
}

/// What parsing a function's parameters and return type gives: a failure, a default value
/// (left open), or the parameters, the return type and where the body may start.
pub enum SignatureParse {
    Failed(Failure),
    Open,
    Done(Seq<ParamModel>, Option<TypeModel>, Spot),
}

/// The model of a type that may be absent.
pub open spec fn opt_type_model(t: Option<Type>) -> Option<TypeModel> {
    match t {
        Some(t) => Some(t.model()),
        None => None,
    }
}

/// A function's parameters after those in `acc`, each a name and a type, separated by commas.
pub open spec fn fn_param_list_at(inp: TokenInput, s: Spot, acc: Seq<ParamModel>) -> ParamsParse
    decreases measure_at(inp, s),
{
    match cur_identifier_at(s) {
        None => ParamsParse::Failed(Failure::Syntax(location_of(s.current), "Expected parameter name"@)),
        Some(n) => if read_fails_at(inp, s) {
            ParamsParse::Failed(lexical_failure(inp))
        } else {
            match type_at(inp, read_at(inp, s)) {
                TypeParse::Failed(f) => ParamsParse::Failed(f),
                TypeParse::Parsed(None, s2) => ParamsParse::Failed(
                    Failure::Syntax(location_of(s2.current), "Expected parameter type"@)),
                TypeParse::Parsed(Some(t), s2) => if kind_of(s2.current) == Some(TokenKind::Assign) {
                    ParamsParse::Open
                } else {
                    let acc1 = acc.push(ParamModel { name: n, param_type: t, has_default: false, location: location_of(s2.current) });
                    match consume_at(inp, s2, TokenKind::Comma) {
                        Err(f) => ParamsParse::Failed(f),
                        Ok((false, s3)) => ParamsParse::Done(acc1, s3),
                        Ok((true, s3)) => if smaller(inp, s3, s) {
                            fn_param_list_at(inp, s3, acc1)
                        } else {
                            ParamsParse::Failed(stalled())
                        },
                    }
                },
            }
        },
    }
}

/// A function's parameters after its `(`, the `)`, then `->` or `:` and a return type if any.
pub open spec fn signature_at(inp: TokenInput, s: Spot) -> SignatureParse {
    let params = if kind_of(s.current) == Some(TokenKind::RightParen) {
        ParamsParse::Done(Seq::empty(), s)
    } else {
        fn_param_list_at(inp, s, Seq::empty())
    };
    match params {
        ParamsParse::Failed(f) => SignatureParse::Failed(f),
        ParamsParse::Open => SignatureParse::Open,
        ParamsParse::Done(ps, s1) => match expect_at(inp, s1, Token::RightParen) {
            Err(f) => SignatureParse::Failed(f),
            Ok(s2) => {
                let has_return = match consume_at(inp, s2, TokenKind::Arrow) {
                    Err(f) => Err(f),
                    Ok((true, s3)) => Ok((true, s3)),
                    Ok((false, s3)) => consume_at(inp, s3, TokenKind::Colon),
                };
                match has_return {
                    Err(f) => SignatureParse::Failed(f),
                    Ok((false, s4)) => SignatureParse::Done(ps, None, s4),
                    Ok((true, s4)) => match type_at(inp, s4) {
                        TypeParse::Failed(f) => SignatureParse::Failed(f),
                        TypeParse::Parsed(r, s5) => SignatureParse::Done(ps, r, s5),
                    },
                }
            },
        },
    }
}

/// A struct declaration up to its fields: `struct`, a name, generic parameters in angle brackets
/// if any, and the fields in braces; the struct without methods, placed where the fields end.
pub open spec fn struct_decl_head_at(inp: TokenInput, s: Spot) -> Parsed<StructModel> {
    match expect_at(inp, s, Token::Struct) {
        Err(f) => Parsed::Failed(f),
        Ok(s1) => match cur_identifier_at(s1) {
            None => Parsed::Failed(Failure::Syntax(location_of(s1.current), "Expected struct name after 'struct'"@)),
            Some(name) => if read_fails_at(inp, s1) {
                Parsed::Failed(lexical_failure(inp))
            } else {
                go_struct_at(inp, read_at(inp, s1), name)
            },
        },
    }
}

/// Where skipping from `s` stops: at `}` or at the end of the input; or the failure of reading
/// past the last token.
pub open spec fn skip_to_close_at(inp: TokenInput, s: Spot) -> std::result::Result<Spot, Failure>
    decreases measure_at(inp, s),
{
    if kind_of(s.current) == Some(TokenKind::RightBrace) || s.current is None {
        Ok(s)
    } else if read_fails_at(inp, s) {
        Err(lexical_failure(inp))
    } else if smaller(inp, read_at(inp, s), s) {
        skip_to_close_at(inp, read_at(inp, s))
    } else {
        Err(stalled())
    }
}

/// A statement that ends the code after it in a block: `return`, `break` or `continue`.
pub open spec fn terminates(m: StmtModel) -> bool {
    m is Return || m is Break || m is Continue
}

/// The statements of a function body after those in `acc`, up to `}` or a place where no
/// statement starts; after a `return`, `break` or `continue` the rest is skipped.
pub open spec fn body_rest_at(inp: TokenInput, s: Spot, acc: Seq<StmtModel>) -> StmtParse<Seq<StmtModel>>
    decreases measure_at(inp, s),
{
    if kind_of(s.current) == Some(TokenKind::RightBrace) {
        StmtParse::Done(acc, s)
    } else {
        match stmt_at(inp, s) {
            StmtParse::Failed(f) => StmtParse::Failed(f),
            StmtParse::Open => StmtParse::Open,
            StmtParse::Done(None, s1) => StmtParse::Done(acc, s1),
            StmtParse::Done(Some(st), s1) => if terminates(st) {
                match skip_to_close_at(inp, s1) {
                    Err(f) => StmtParse::Failed(f),
                    Ok(s2) => StmtParse::Done(acc.push(st), s2),
                }
            } else if smaller(inp, s1, s) {
                body_rest_at(inp, s1, acc.push(st))
            } else {
                StmtParse::Failed(stalled())
            },
        }
    }
}

/// A function body after its `{`: statements, then `}`; the statements and the location after.
pub open spec fn body_at(inp: TokenInput, s: Spot) -> StmtParse<(Seq<StmtModel>, Location)> {
    match body_rest_at(inp, s, Seq::empty()) {
        StmtParse::Failed(f) => StmtParse::Failed(f),
        StmtParse::Open => StmtParse::Open,
        StmtParse::Done(ss, s1) => match expect_at(inp, s1, Token::RightBrace) {
            Err(f) => StmtParse::Failed(f),
            Ok(s2) => StmtParse::Done((ss, location_of(s2.current)), s2),
        },
    }
}

/// What follows a function's signature: a body in braces if any, then attributes (left open
/// when there are any); the body.
pub open spec fn fn_tail_at(inp: TokenInput, s: Spot) -> StmtParse<Option<(Seq<StmtModel>, Location)>> {
    match consume_at(inp, s, TokenKind::LeftBrace) {
        Err(f) => StmtParse::Failed(f),
        Ok((false, s1)) => if kind_of(s1.current) == Some(TokenKind::At) {
            StmtParse::Open
        } else {
            StmtParse::Done(None, s1)
        },
        Ok((true, s1)) => match body_at(inp, s1) {
            StmtParse::Failed(f) => StmtParse::Failed(f),
            StmtParse::Open => StmtParse::Open,
            StmtParse::Done(b, s2) => if kind_of(s2.current) == Some(TokenKind::At) {
                StmtParse::Open
            } else {
                StmtParse::Done(Some(b), s2)
            },
        },
    }
}

/// The model of a function body that may be absent.
pub open spec fn body_model(b: Option<Block>) -> Option<(Seq<StmtModel>, Location)> {
    match b {
        Some(b) => Some((stmt_models(b.statements@), b.location)),
        None => None,
    }
}

/// How a function declaration begins: `fn`, then either a receiver in parentheses, which makes
/// it a method, or a name, generic parameters in angle brackets if any, and `(`.
pub enum FunctionHead {
    Failed(Failure),
    Method,
    Named(Seq<char>, Seq<GenericModel>, Spot),
}

/// The beginning of a function declaration at `s`: its name and generic parameters, and where its
/// parameters start.
pub open spec fn function_head_at(inp: TokenInput, s: Spot) -> FunctionHead {
    match expect_at(inp, s, Token::Fn) {
        Err(f) => FunctionHead::Failed(f),
        Ok(s1) => if kind_of(s1.current) == Some(TokenKind::LeftParen) {
            FunctionHead::Method
        } else {
            match cur_identifier_at(s1) {
                None => FunctionHead::Failed(
                    Failure::Syntax(location_of(s1.current), "Expected function name after 'fn'"@)),
                Some(name) => if read_fails_at(inp, s1) {
                    FunctionHead::Failed(lexical_failure(inp))
                } else {
                    let gens = match consume_at(inp, read_at(inp, s1), TokenKind::Less) {
                        Err(f) => Parsed::Failed(f),
                        Ok((false, s2)) => Parsed::Done(Seq::empty(), s2),
                        Ok((true, s2)) => generics_at(inp, s2),
                    };
                    match gens {
                        Parsed::Failed(f) => FunctionHead::Failed(f),
                        Parsed::Done(gs, s3) => match expect_at(inp, s3, Token::LeftParen) {
                            Err(f) => FunctionHead::Failed(f),
                            Ok(s4) => FunctionHead::Named(name, gs, s4),
                        },
                    }
                },
            }
        },
    }
}

/// A parser that gave `res` and stands at `p` did what `o` says, the value read through `view`.
pub open spec fn gives<T, V>(res: Result<T>, p: Parser, o: Parsed<V>, view: spec_fn(T) -> V) -> bool {
    match o {
        Parsed::Failed(f) => res is Err && fails_with(res->Err_0, f),
        Parsed::Done(v, sp) => p.spot() == sp && (res matches Ok(x) && view(x) == v),
    }
}

/// The keywords that open a declaration.
pub open spec fn is_declaration_keyword(k: TokenKind) -> bool {
    k == TokenKind::Fn || k == TokenKind::Var || k == TokenKind::Const || k == TokenKind::Type
        || k == TokenKind::Interface || k == TokenKind::Import || k == TokenKind::Impl
}

/// The current token opens a declaration.
pub open spec fn cur_is_declaration_keyword(p: Parser) -> bool {
    match p.cur_kind() {
        Some(k) => is_declaration_keyword(k),
        None => false,
    }
}

/// A copy of the current token.
fn current_token(parser: &Parser) -> (res: Option<TokenWithLocation>)
    ensures
        res == parser.cur(),
{
    match parser.peek() {
        Some(t) => Some(t.clone()),
        None => None,
    }
}

/// Parse a declaration
pub fn parse_declaration(parser: &mut Parser) -> (res: Result<Option<Declaration>>)
    requires
        old(parser).wf(),
    ensures
        advanced(*old(parser), *final(parser)),
        res matches Ok(Some(_)) ==> final(parser).measure() < old(parser).measure(),
        !cur_is_declaration_keyword(*old(parser)) ==> (res matches Ok(None) && *final(parser) == *old(parser)),
        cur_is_declaration_keyword(*old(parser)) ==> !(res matches Ok(None)),
{
    let kind = match parser.current_kind() {
        Some(k) => k,
        None => {
            return Ok(None);
        },
    };
    match kind {
        TokenKind::Fn => {
            let decl = parse_function_declaration(parser)?;
            Ok(Some(Declaration::Function(decl)))
        },
        TokenKind::Var => {
            let decl = parse_variable_declaration(parser)?;
            Ok(Some(Declaration::Variable(decl)))
        },
        TokenKind::Const => {
            let decl = parse_constant_declaration(parser)?;
            Ok(Some(Declaration::Constant(decl)))
        },
        TokenKind::Type => {
            let current_pos = current_token(parser);
            parser.advance()?;
            if parser.check(&Token::Identifier(String::new())) {
                parser.advance()?;
                if parser.check(&Token::Struct) {
                    parser.set_current(current_pos);
                    let struct_decl = parse_go_style_struct_declaration(parser)?;
                    Ok(Some(Declaration::Struct(struct_decl)))
                } else {
                    parser.set_current(current_pos);
                    let decl = parse_type_declaration(parser)?;
                    Ok(Some(Declaration::Type(decl)))
                }
            } else {
                parser.set_current(current_pos);
                let decl = parse_type_declaration(parser)?;
                Ok(Some(Declaration::Type(decl)))
            }
        },
        TokenKind::Interface => {
            let decl = parse_interface_declaration(parser)?;
            Ok(Some(Declaration::Interface(decl)))
        },
        TokenKind::Import => {
            let decl = parse_import_declaration(parser)?;
            Ok(Some(Declaration::Import(decl)))
        },
        TokenKind::Impl => {
            let decl = parse_impl_declaration(parser)?;
            Ok(Some(Declaration::Impl(decl)))
        },
        _ => Ok(None),
    }
}

/// Parse the generic parameters after `<`, up to and including the closing `>`:
/// `T, U: A + B`.
fn parse_generic_params(parser: &mut Parser) -> (res: Result<Vec<GenericParam>>)
    requires
        old(parser).wf(),
    ensures
        advanced(*old(parser), *final(parser)),
        res is Ok ==> final(parser).measure() < old(parser).measure(),
        gives(res, *final(parser), generics_at(old(parser).input(), old(parser).spot()),
            |gs: Vec<GenericParam>| generic_models(gs@)),
{
    let ghost inp = parser.input();
    let mut generics: Vec<GenericParam> = Vec::new();
    proof {
        assert(generic_models(generics@) =~= Seq::<GenericModel>::empty());
    }
    if !parser.check(&Token::Greater) {
        let ghost goal = generic_list_at(inp, parser.spot(), Seq::empty());
        loop
            invariant_except_break
                generic_list_at(inp, parser.spot(), generic_models(generics@)) == goal,
            invariant
                advanced(*old(parser), *parser),
                parser.input() == inp,
                inp == old(parser).input(),
                kind_of(old(parser).spot().current) != Some(TokenKind::Greater),
                goal == generic_list_at(inp, old(parser).spot(), Seq::empty()),
            ensures
                advanced(*old(parser), *parser),
                goal == Parsed::<Seq<GenericModel>>::Done(generic_models(generics@), parser.spot()),
            decreases parser.measure(),
        {
            let ghost sb = parser.spot();
            match cur_name(parser) {
                Some(name) => {
                    parser.advance()?;
                    let constraints: Vec<Type> = if parser.consume(&Token::Colon)? {
                        parse_type_constraints(parser)?
                    } else {
                        let constraints: Vec<Type> = Vec::new();
                        proof {
                            assert(models(constraints@) =~= Seq::<TypeModel>::empty());
                        }
                        constraints
                    };
                    let location = parser.current_location();
                    let g = GenericParam { name, constraints, location };
                    proof {
                        lemma_generic_models_push(generics@, g);
                    }
                    generics.push(g);
                },
                None => {},
            }
            if !parser.consume(&Token::Comma)? {
                break;
            }
            proof {
                assert(smaller(inp, parser.spot(), sb));
            }
        }
    }
    parser.expect(&Token::Greater)?;
    Ok(generics)
}

/// Parse the types of a generic parameter's constraints, separated by `+`
fn parse_type_constraints(parser: &mut Parser) -> (res: Result<Vec<Type>>)
    requires
        old(parser).wf(),
    ensures
        advanced(*old(parser), *final(parser)),
        gives(res, *final(parser), constraints_at(old(parser).input(), old(parser).spot(), Seq::empty()),
            |cs: Vec<Type>| models(cs@)),
{
    let ghost inp = parser.input();
    let ghost goal = constraints_at(inp, parser.spot(), Seq::empty());
    let mut constraints: Vec<Type> = Vec::new();
    proof {
        assert(models(constraints@) =~= Seq::<TypeModel>::empty());
    }
    loop
        invariant_except_break
            constraints_at(inp, parser.spot(), models(constraints@)) == goal,
        invariant
            advanced(*old(parser), *parser),
            parser.input() == inp,
            goal == constraints_at(old(parser).input(), old(parser).spot(), Seq::empty()),
        ensures
            advanced(*old(parser), *parser),
            goal == Parsed::<Seq<TypeModel>>::Done(models(constraints@), parser.spot()),
        decreases parser.measure(),
    {
        let ghost sb = parser.spot();
        match parse_type(parser)? {
            Some(c) => {
                proof {
                    lemma_models_push(constraints@, c);
                }
                constraints.push(c);
            },
            None => {},
        }
        if !parser.consume(&Token::Plus)? {
            break;
        }
        proof {
            assert(smaller(inp, parser.spot(), sb));
        }
    }
    Ok(constraints)
}

/// Parse function declaration
/// A function declaration as a mathematical value.
pub struct FnModel {
    pub name: Seq<char>,
    pub generics: Seq<GenericModel>,
    pub params: Seq<ParamModel>,
    pub return_type: Option<TypeModel>,
    pub body: Option<(Seq<StmtModel>, Location)>,
    pub attribute_count: nat,
    pub location: Location,
}

/// The model of a function declaration.
pub open spec fn fn_model(d: FunctionDecl) -> FnModel {
    FnModel {
        name: d.name@,
        generics: generic_models(d.generics@),
        params: param_models(d.parameters@),
        return_type: opt_type_model(d.return_type),
        body: body_model(d.body),
        attribute_count: d.attributes@.len(),
        location: d.location,
    }
}

/// A whole function declaration: its head, signature, body and attributes, or a Go-style
/// method (a receiver in parentheses after `fn`). Default parameter values and attributes are
/// left open.
pub open spec fn fn_decl_at(inp: TokenInput, s: Spot) -> StmtParse<FnModel> {
    match function_head_at(inp, s) {
        FunctionHead::Failed(f) => StmtParse::Failed(f),
        FunctionHead::Method => match expect_at(inp, s, Token::Fn) {
            Err(f) => StmtParse::Failed(f),
            Ok(s1) => method_decl_at(inp, s1),
        },
        FunctionHead::Named(name, gs, s1) => match signature_at(inp, s1) {
            SignatureParse::Failed(f) => StmtParse::Failed(f),
            SignatureParse::Open => StmtParse::Open,
            SignatureParse::Done(ps, r, s2) => match fn_tail_at(inp, s2) {
                StmtParse::Failed(f) => StmtParse::Failed(f),
                StmtParse::Open => StmtParse::Open,
                StmtParse::Done(b, s3) => StmtParse::Done(FnModel {
                    name,
                    generics: gs,
                    params: ps,
                    return_type: r,
                    body: b,
                    attribute_count: 0,
                    location: location_of(s3.current),
                }, s3),
            },
        },
    }
}

#[verifier::rlimit(100)]
#[verifier::spinoff_prover]
pub fn parse_function_declaration(parser: &mut Parser) -> (res: Result<FunctionDecl>)
    requires
        old(parser).wf(),
    ensures
        advanced(*old(parser), *final(parser)),
        res is Ok ==> final(parser).measure() < old(parser).measure(),
        old(parser).cur_kind() != Some(TokenKind::Fn) ==> res is Err && *final(parser) == *old(parser),
        gives_stmt(res, *final(parser), fn_decl_at(old(parser).input(), old(parser).spot()), |d: FunctionDecl| fn_model(d)),
        match function_head_at(old(parser).input(), old(parser).spot()) {
            FunctionHead::Failed(f) => res is Err && fails_with(res->Err_0, f),
            FunctionHead::Method => true,
            FunctionHead::Named(name, gs, s1) => match signature_at(old(parser).input(), s1) {
                SignatureParse::Failed(f) => res is Err && fails_with(res->Err_0, f),
                SignatureParse::Open => res matches Ok(d) ==> d.name@ == name && generic_models(d.generics@) == gs,
                SignatureParse::Done(ps, r, s2) => {
                    &&& res matches Ok(d) ==> d.name@ == name && generic_models(d.generics@) == gs
                        && param_models(d.parameters@) == ps && opt_type_model(d.return_type) == r
                    &&& kind_of(s2.current) != Some(TokenKind::LeftBrace) && kind_of(s2.current) != Some(TokenKind::At)
                        ==> (res matches Ok(d) && d.body is None && d.attributes@.len() == 0
                            && d.location == location_of(s2.current) && final(parser).spot() == s2)
                    &&& match fn_tail_at(old(parser).input(), s2) {
                        StmtParse::Failed(f) => res is Err && fails_with(res->Err_0, f),
                        StmtParse::Open => true,
                        StmtParse::Done(b, s3) => res matches Ok(d) && body_model(d.body) == b && d.attributes@.len() == 0
                            && d.location == location_of(s3.current) && final(parser).spot() == s3,
                    }
                },
            },
        },
{
    let ghost inp = parser.input();
    let ghost s0 = parser.spot();
    parser.expect(&Token::Fn)?;
    if parser.check(&Token::LeftParen) {
        proof {
            assert(function_head_at(inp, s0) == FunctionHead::Method);
            assert(fn_decl_at(inp, s0) == method_decl_at(inp, parser.spot()));
        }
        return match parse_method_declaration(parser)? {
            Some(method) => Ok(method),
            None => {
                let loc = parser.current_location();
                Err(CompilerError::syntax(loc.line, loc.column, "Failed to parse method declaration"))
            },
        };
    }
    let func_name = match cur_name(parser) {
        Some(name) => name,
        None => {
            let loc = parser.current_location();
            return Err(CompilerError::syntax(loc.line, loc.column, "Expected function name after 'fn'"));
        },
    };
    parser.advance()?;
    let generics = if parser.consume(&Token::Less)? {
        parse_generic_params(parser)?
    } else {
        Vec::new()
    };
    proof {
        assert(generic_models(Seq::<GenericParam>::empty()) =~= Seq::<GenericModel>::empty());
    }
    parser.expect(&Token::LeftParen)?;
    let ghost head_name = func_name@;
    let ghost head_generics = generic_models(generics@);
    let ghost s1 = parser.spot();
    assert(function_head_at(inp, old(parser).spot()) == FunctionHead::Named(head_name, head_generics, s1));
    let parameters = parse_function_parameters(parser)?;
    parser.expect(&Token::RightParen)?;
    let arrow = parser.consume(&Token::Arrow)?;
    let has_return_type = if arrow {
        true
    } else {
        parser.consume(&Token::Colon)?
    };
    let return_type = if has_return_type {
        parse_type(parser)?
    } else {
        None
    };
    let body = if parser.consume(&Token::LeftBrace)? {
        Some(parse_block(parser)?)
    } else {
        None
    };
    let attributes = parse_attributes(parser)?;
    let location = parser.current_location();
    Ok(FunctionDecl { name: func_name, generics, parameters, return_type, body, attributes, location })
}

/// Parse variable declaration
pub fn parse_variable_declaration(parser: &mut Parser) -> (res: Result<VariableDecl>)
    requires
        old(parser).wf(),
    ensures
        advanced(*old(parser), *final(parser)),
        res is Ok ==> final(parser).measure() < old(parser).measure(),
        old(parser).cur_kind() != Some(TokenKind::Var) ==> res is Err && *final(parser) == *old(parser)
            && syntax_error_at(res->Err_0, location_of(old(parser).cur()), expected_message(Token::Var, old(parser).cur())),
        res matches Ok(d) ==> d.mutable,
{
    parser.expect(&Token::Var)?;
    match cur_name(parser) {
        Some(name) => {
            parser.advance()?;
            let var_type = if parser.consume(&Token::Colon)? {
                parse_type(parser)?
            } else {
                None
            };
            let initializer = if parser.consume(&Token::Assign)? {
                parse_expression(parser)?
            } else {
                None
            };
            parser.expect(&Token::Semicolon)?;
            let location = parser.current_location();
            Ok(VariableDecl { name, var_type, initializer, mutable: true, location })
        },
        None => {
            let loc = parser.current_location();
            Err(CompilerError::syntax(loc.line, loc.column, "Expected variable name after 'var'"))
        },
    }
}

/// Parse constant declaration
pub fn parse_constant_declaration(parser: &mut Parser) -> (res: Result<ConstantDecl>)
    requires
        old(parser).wf(),
    ensures
        advanced(*old(parser), *final(parser)),
        res is Ok ==> final(parser).measure() < old(parser).measure(),
        old(parser).cur_kind() != Some(TokenKind::Const) ==> res is Err && *final(parser) == *old(parser),
        gives_stmt(res, *final(parser), const_decl_at(old(parser).input(), old(parser).spot()),
            |c: ConstantDecl| (c.name@, opt_type_model(c.const_type), c.value.model(), c.location)),
{
    parser.expect(&Token::Const)?;
    match cur_name(parser) {
        Some(name) => {
            parser.advance()?;
            let const_type = if parser.consume(&Token::Colon)? {
                parse_type(parser)?
            } else {
                None
            };
            parser.expect(&Token::Assign)?;
            let value = match parse_expression(parser)? {
                Some(v) => v,
                None => {
                    let loc = parser.current_location();
                    return Err(CompilerError::syntax(loc.line, loc.column, "Expected value after '='"));
                },
            };
            parser.expect(&Token::Semicolon)?;
            let location = parser.current_location();
            Ok(ConstantDecl { name, const_type, value, location })
        },
        None => {
            let loc = parser.current_location();
            Err(CompilerError::syntax(loc.line, loc.column, "Expected constant name after 'const'"))
        },
    }
}

/// Parse type declaration: `type Name = Type;`, or Go-style `type Name struct { ... }`, which
/// is described by a struct type of that name.
pub fn parse_type_declaration(parser: &mut Parser) -> (res: Result<TypeDecl>)
    requires
        old(parser).wf(),
    ensures
        advanced(*old(parser), *final(parser)),
        res is Ok ==> final(parser).measure() < old(parser).measure(),
        old(parser).cur_kind() != Some(TokenKind::Type) ==> res is Err && *final(parser) == *old(parser),
        gives(res, *final(parser), type_decl_at(old(parser).input(), old(parser).spot()),
            |d: TypeDecl| type_decl_model(d)),
{
    parser.expect(&Token::Type)?;
    match cur_name(parser) {
        Some(decl_name) => {
            parser.advance()?;
            if parser.consume(&Token::Struct)? {
                let struct_decl = parse_go_style_struct(parser, decl_name)?;
                let location = struct_decl.location;
                let type_args: Vec<Type> = Vec::new();
                proof {
                    assert(models(type_args@) =~= Seq::<TypeModel>::empty());
                }
                Ok(TypeDecl {
                    name: struct_decl.name.clone(),
                    type_def: Type::Struct(StructType { name: struct_decl.name.clone(), type_args, location }),
                    location,
                })
            } else {
                parser.expect(&Token::Assign)?;
                let type_def = match parse_type(parser)? {
                    Some(t) => t,
                    None => {
                        let loc = parser.current_location();
                        return Err(CompilerError::syntax(loc.line, loc.column, "Expected type definition after '='"));
                    },
                };
                parser.expect(&Token::Semicolon)?;
                let location = parser.current_location();
                Ok(TypeDecl { name: decl_name, type_def, location })
            }
        },
        None => {
            let loc = parser.current_location();
            Err(CompilerError::syntax(loc.line, loc.column, "Expected type name after 'type'"))
        },
    }
}

/// Parse Go-style struct declaration (type StructName struct { ... })
pub fn parse_go_style_struct_declaration(parser: &mut Parser) -> (res: Result<StructDecl>)
    requires
        old(parser).wf(),
    ensures
        advanced(*old(parser), *final(parser)),
        res is Ok ==> final(parser).measure() < old(parser).measure(),
        old(parser).cur_kind() != Some(TokenKind::Type) ==> res is Err && *final(parser) == *old(parser),
        gives(res, *final(parser), go_struct_decl_at(old(parser).input(), old(parser).spot()),
            |d: StructDecl| struct_model(d)),
{
    parser.expect(&Token::Type)?;
    match cur_name(parser) {
        Some(struct_name) => {
            parser.advance()?;
            parser.expect(&Token::Struct)?;
            parse_go_style_struct(parser, struct_name)
        },
        None => {
            let loc = parser.current_location();
            Err(CompilerError::syntax(loc.line, loc.column, "Expected struct name after 'type'"))
        },
    }
}

/// Parse Go-style struct declaration from the `struct` keyword, the name being known
pub fn parse_go_style_struct_declaration_from_current(parser: &mut Parser, struct_name: String) -> (res: Result<StructDecl>)
    requires
        old(parser).wf(),
    ensures
        advanced(*old(parser), *final(parser)),
        res is Ok ==> final(parser).measure() < old(parser).measure(),
        old(parser).cur_kind() != Some(TokenKind::Struct) ==> res is Err && *final(parser) == *old(parser),
        res matches Ok(s) ==> s.name == struct_name,
        gives(res, *final(parser), match expect_at(old(parser).input(), old(parser).spot(), Token::Struct) {
            Err(f) => Parsed::Failed(f),
            Ok(s1) => go_struct_at(old(parser).input(), s1, struct_name@),
        }, |d: StructDecl| struct_model(d)),
{
    parser.expect(&Token::Struct)?;
    parse_go_style_struct(parser, struct_name)
}

/// Parse the fields of a struct body, up to and including the closing `}`; a token that does
/// not start a field is skipped.
fn parse_struct_fields(parser: &mut Parser) -> (res: Result<Vec<StructField>>)
    requires
        old(parser).wf(),
    ensures
        advanced(*old(parser), *final(parser)),
        res is Ok ==> final(parser).measure() < old(parser).measure(),
        gives(res, *final(parser), fields_at(old(parser).input(), old(parser).spot(), Seq::empty()),
            |fs: Vec<StructField>| field_models(fs@)),
{
    let ghost inp = parser.input();
    let ghost goal = fields_at(inp, parser.spot(), Seq::empty());
    let mut fields: Vec<StructField> = Vec::new();
    proof {
        assert(field_models(fields@) =~= Seq::<FieldModel>::empty());
    }
    loop
        invariant
            advanced(*old(parser), *parser),
            parser.input() == inp,
            goal == fields_at(old(parser).input(), old(parser).spot(), Seq::empty()),
            fields_at(inp, parser.spot(), field_models(fields@)) == goal,
        ensures
            advanced(*old(parser), *parser),
            fields_at(inp, parser.spot(), field_models(fields@)) == goal,
            kind_of(parser.spot().current) == Some(TokenKind::RightBrace) || parser.spot().current is None,
        decreases parser.measure(),
    {
        if parser.check(&Token::RightBrace) || parser.is_at_end() {
            break;
        }
        let ghost sb = parser.spot();
        match cur_name(parser) {
            Some(name) => {
                parser.advance()?;
                let field_type = match parse_type(parser)? {
                    Some(t) => t,
                    None => {
                        let loc = parser.current_location();
                        return Err(CompilerError::syntax(loc.line, loc.column, "Expected field type"));
                    },
                };
                let ghost s2 = parser.spot();
                let field_tag = if parser.consume(&Token::Backtick)? {
                    let tag: Option<String> = match parser.peek() {
                        Some(t) => match &t.token {
                            Token::String(tag) => Some(tag.clone()),
                            _ => None,
                        },
                        None => None,
                    };
                    match tag {
                        Some(tag) => {
                            parser.advance()?;
                            parser.expect(&Token::Backtick)?;
                            Some(tag)
                        },
                        None => {
                            let loc = parser.current_location();
                            return Err(CompilerError::syntax(loc.line, loc.column, "Expected field tag string"));
                        },
                    }
                } else {
                    None
                };
                proof {
                    assert(field_tag_at(inp, s2) == Parsed::<Option<Seq<char>>>::Done(match field_tag {
                        Some(t) => Some(t@),
                        None => None,
                    }, parser.spot()));
                }
                let location = parser.current_location();
                let f = StructField { name, field_type, default_value: None, field_tag, location };
                proof {
                    lemma_field_models_push(fields@, f);
                }
                fields.push(f);
            },
            None => {
                parser.advance()?;
            },
        }
        proof {
            assert(smaller(inp, parser.spot(), sb));
        }
    }
    parser.expect(&Token::RightBrace)?;
    Ok(fields)
}

/// Parse Go-style struct declaration (struct { ... })
fn parse_go_style_struct(parser: &mut Parser, struct_name: String) -> (res: Result<StructDecl>)
    requires
        old(parser).wf(),
    ensures
        advanced(*old(parser), *final(parser)),
        res is Ok ==> final(parser).measure() < old(parser).measure(),
        res matches Ok(s) ==> s.name == struct_name && s.methods@.len() == 0,
        gives(res, *final(parser), go_struct_at(old(parser).input(), old(parser).spot(), struct_name@),
            |d: StructDecl| struct_model(d)),
{
    let generics = if parser.consume(&Token::Less)? {
        parse_generic_params(parser)?
    } else {
        let generics: Vec<GenericParam> = Vec::new();
        proof {
            assert(generic_models(generics@) =~= Seq::<GenericModel>::empty());
        }
        generics
    };
    parser.expect(&Token::LeftBrace)?;
    let fields = parse_struct_fields(parser)?;
    let methods: Vec<FunctionDecl> = Vec::new();
    let location = parser.current_location();
    Ok(StructDecl { name: struct_name, generics, fields, methods, location })
}

/// Parse an implementation declaration
pub fn parse_impl_declaration(parser: &mut Parser) -> (res: Result<ImplDecl>)
    requires
        old(parser).wf(),
    ensures
        advanced(*old(parser), *final(parser)),
        res is Ok ==> final(parser).measure() < old(parser).measure(),
        old(parser).cur_kind() != Some(TokenKind::Impl) ==> res is Err && *final(parser) == *old(parser),
{
    parser.expect(&Token::Impl)?;
    let self_type = match cur_name(parser) {
        Some(name) => {
            parser.advance()?;
            name
        },
        None => {
            let loc = parser.current_location();
            return Err(CompilerError::syntax(loc.line, loc.column, "Expected type name after 'impl'"));
        },
    };
    let generics = if parser.consume(&Token::Less)? {
        let mut params: Vec<GenericParam> = Vec::new();
        loop
            invariant
                advanced(*old(parser), *parser),
                old(parser).cur_kind() == Some(TokenKind::Impl),
                parser.measure() < old(parser).measure(),
            decreases parser.measure(),
        {
            let ghost m0 = parser.measure();
            match cur_name(parser) {
                Some(param_name) => {
                    parser.advance()?;
                    let mut constraints: Vec<Type> = Vec::new();
                    if parser.consume(&Token::Colon)? {
                        loop
                            invariant
                                advanced(*old(parser), *parser),
                                parser.measure() < m0,
                                old(parser).cur_kind() == Some(TokenKind::Impl),
                                parser.measure() < old(parser).measure(),
                            decreases parser.measure(),
                        {
                            if parser.check(&Token::Identifier(String::new())) {
                                constraints.push(Type::Basic(BasicType::String));
                                parser.advance()?;
                                if !parser.consume(&Token::Plus)? {
                                    break;
                                }
                            } else {
                                break;
                            }
                        }
                    }
                    let location = parser.current_location();
                    params.push(GenericParam { name: param_name, constraints, location });
                    if !parser.consume(&Token::Comma)? {
                        break;
                    }
                },
                None => {
                    break;
                },
            }
        }
        parser.expect(&Token::Greater)?;
        params
    } else {
        Vec::new()
    };
    parser.expect(&Token::LeftBrace)?;
    let mut methods: Vec<FunctionDecl> = Vec::new();
    loop
        invariant
            advanced(*old(parser), *parser),
            old(parser).cur_kind() == Some(TokenKind::Impl),
            parser.measure() < old(parser).measure(),
        decreases parser.measure(),
    {
        if parser.consume(&Token::RightBrace)? {
            break;
        }
        if parser.is_at_end() {
            let loc = parser.current_location();
            return Err(CompilerError::syntax(loc.line, loc.column, "Expected '}' to close impl block"));
        }
        if parser.check(&Token::Fn) {
            let method = parse_impl_method(parser, self_type.as_str())?;
            methods.push(method);
        } else {
            parser.advance()?;
        }
    }
    let location = parser.current_location();
    Ok(ImplDecl { self_type, generics, methods, location })
}

/// The parameter `self` of a method of `decl` written without a type: a mutable pointer to
/// the struct `decl`, at `loc`.
pub open spec fn self_param(decl: Seq<char>, loc: Location) -> ParamModel {
    ParamModel {
        name: "self"@,
        param_type: TypeModel::Pointer(Box::new(TypeModel::Struct(decl, Seq::empty(), loc)), true, false, loc),
        has_default: false,
        location: loc,
    }
}

/// The parameters of a method of `decl` after those in `acc`: each a name and a type, but
/// `self` without a type stands for `self_param` and `self` followed by `:` adds nothing;
/// separated by `,` and closed by `)`. Where no name comes the list ends, before any `)`.
pub open spec fn method_params_at(inp: TokenInput, s: Spot, decl: Seq<char>, acc: Seq<ParamModel>) -> Parsed<Seq<ParamModel>>
    decreases measure_at(inp, s),
{
    match cur_identifier_at(s) {
        None => Parsed::Done(acc, s),
        Some(n) => if read_fails_at(inp, s) {
            Parsed::Failed(lexical_failure(inp))
        } else {
            let s1 = read_at(inp, s);
            let step = if n == "self"@ && kind_of(s1.current) != Some(TokenKind::Colon) {
                Parsed::Done(acc.push(self_param(decl, location_of(s1.current))), s1)
            } else if n != "self"@ {
                match type_at(inp, s1) {
                    TypeParse::Failed(f) => Parsed::Failed(f),
                    TypeParse::Parsed(None, s2) => Parsed::Failed(
                        Failure::Syntax(location_of(s2.current), "Expected parameter type after parameter name"@)),
                    TypeParse::Parsed(Some(t), s2) => Parsed::Done(acc.push(ParamModel {
                        name: n, param_type: t, has_default: false, location: location_of(s2.current) }), s2),
                }
            } else {
                Parsed::Done(acc, s1)
            };
            match step {
                Parsed::Failed(f) => Parsed::Failed(f),
                Parsed::Done(acc2, s2) => match consume_at(inp, s2, TokenKind::Comma) {
                    Err(f) => Parsed::Failed(f),
                    Ok((true, s3)) => if smaller(inp, s3, s) {
                        method_params_at(inp, s3, decl, acc2)
                    } else {
                        Parsed::Failed(stalled())
                    },
                    Ok((false, s3)) => match expect_at(inp, s3, Token::RightParen) {
                        Err(f) => Parsed::Failed(f),
                        Ok(s4) => Parsed::Done(acc2, s4),
                    },
                },
            }
        },
    }
}

/// The statements of a method body after those in `acc`, up to and with `}`: a place where no
/// statement starts, or the end of the input, is an error. The statements and the location
/// after `}`.
pub open spec fn method_body_rest_at(inp: TokenInput, s: Spot, acc: Seq<StmtModel>) -> StmtParse<(Seq<StmtModel>, Location)>
    decreases measure_at(inp, s),
{
    match consume_at(inp, s, TokenKind::RightBrace) {
        Err(f) => StmtParse::Failed(f),
        Ok((true, s1)) => StmtParse::Done((acc, location_of(s1.current)), s1),
        Ok((false, s1)) => if s1.current is None {
            StmtParse::Failed(Failure::Syntax(location_of(s1.current), "Expected '}' to close function body"@))
        } else {
            match stmt_at(inp, s1) {
                StmtParse::Failed(f) => StmtParse::Failed(f),
                StmtParse::Open => StmtParse::Open,
                StmtParse::Done(None, s2) => StmtParse::Failed(
                    Failure::Syntax(location_of(s2.current), "Expected '}' to close function body"@)),
                StmtParse::Done(Some(st), s2) => if smaller(inp, s2, s) {
                    method_body_rest_at(inp, s2, acc.push(st))
                } else {
                    StmtParse::Failed(stalled())
                },
            }
        },
    }
}

/// A method's return type: after `->` or `:` a type, or without them a type unless `{` comes.
pub open spec fn method_return_at(inp: TokenInput, s: Spot) -> TypeParse {
    match consume_at(inp, s, TokenKind::Arrow) {
        Err(f) => TypeParse::Failed(f),
        Ok((true, s1)) => type_at(inp, s1),
        Ok((false, s1)) => match consume_at(inp, s1, TokenKind::Colon) {
            Err(f) => TypeParse::Failed(f),
            Ok((true, s2)) => type_at(inp, s2),
            Ok((false, s2)) => if kind_of(s2.current) != Some(TokenKind::LeftBrace) {
                type_at(inp, s2)
            } else {
                TypeParse::Parsed(None, s2)
            },
        },
    }
}

/// A method of `decl` in an impl block: `fn`, a name (or `new`), its parameters in parentheses,
/// a return type, and a body in braces if any.
pub open spec fn method_at(inp: TokenInput, s: Spot, decl: Seq<char>) -> StmtParse<FnModel> {
    match expect_at(inp, s, Token::Fn) {
        Err(f) => StmtParse::Failed(f),
        Ok(s1) => {
            let named: Parsed<Seq<char>> = if kind_of(s1.current) == Some(TokenKind::Identifier)
                || kind_of(s1.current) == Some(TokenKind::New) {
                if read_fails_at(inp, s1) {
                    Parsed::Failed(lexical_failure(inp))
                } else {
                    Parsed::Done(match cur_identifier_at(s1) { Some(n) => n, None => "new"@ }, read_at(inp, s1))
                }
            } else {
                Parsed::Failed(Failure::Syntax(location_of(s1.current), "Expected method name after 'fn'"@))
            };
            match named {
                Parsed::Failed(f) => StmtParse::Failed(f),
                Parsed::Done(name, s2) => match expect_at(inp, s2, Token::LeftParen) {
                    Err(f) => StmtParse::Failed(f),
                    Ok(s3) => match consume_at(inp, s3, TokenKind::RightParen) {
                        Err(f) => StmtParse::Failed(f),
                        Ok((true, s4)) => method_rest(inp, name, Parsed::Done(Seq::empty(), s4)),
                        Ok((false, s4)) => method_rest(inp, name, method_params_at(inp, s4, decl, Seq::empty())),
                    },
                },
            }
        },
    }
}

/// A method named `name` whose parameters `params` gives: then its return type and body.
pub open spec fn method_rest(inp: TokenInput, name: Seq<char>, params: Parsed<Seq<ParamModel>>) -> StmtParse<FnModel> {
    match params {
        Parsed::Failed(f) => StmtParse::Failed(f),
        Parsed::Done(ps, s5) => match method_return_at(inp, s5) {
            TypeParse::Failed(f) => StmtParse::Failed(f),
            TypeParse::Parsed(r, s6) => match consume_at(inp, s6, TokenKind::LeftBrace) {
                Err(f) => StmtParse::Failed(f),
                Ok((false, s7)) => method_finish(name, ps, r, StmtParse::Done(None, s7)),
                Ok((true, s7)) => method_finish(name, ps, r, some_body(method_body_rest_at(inp, s7, Seq::empty()))),
            },
        },
    }
}

/// A body that `o` gives, as one that is there.
pub open spec fn some_body(o: StmtParse<(Seq<StmtModel>, Location)>) -> StmtParse<Option<(Seq<StmtModel>, Location)>> {
    match o {
        StmtParse::Failed(f) => StmtParse::Failed(f),
        StmtParse::Open => StmtParse::Open,
        StmtParse::Done(b, s) => StmtParse::Done(Some(b), s),
    }
}

/// The method with this name, parameters and return type, and the body that `body` gives.
pub open spec fn method_finish(name: Seq<char>, ps: Seq<ParamModel>, r: Option<TypeModel>,
    body: StmtParse<Option<(Seq<StmtModel>, Location)>>) -> StmtParse<FnModel>
{
    match body {
        StmtParse::Failed(f) => StmtParse::Failed(f),
        StmtParse::Open => StmtParse::Open,
        StmtParse::Done(b, s9) => StmtParse::Done(FnModel {
            name,
            generics: Seq::empty(),
            params: ps,
            return_type: r,
            body: b,
            attribute_count: 0,
            location: location_of(s9.current),
        }, s9),
    }
}

/// Parse a method within an impl block; a `self` parameter without a type is a pointer to
/// the implementing type.
/// Parse the parameters of a method of `decl_name`, after its `(`, with the `)` that closes them.
#[verifier::rlimit(30)]
fn parse_method_params(parser: &mut Parser, decl_name: &str) -> (res: Result<Vec<Parameter>>)
    requires
        old(parser).wf(),
    ensures
        advanced(*old(parser), *final(parser)),
        gives(res, *final(parser), method_params_at(old(parser).input(), old(parser).spot(), decl_name@, Seq::empty()),
            |v: Vec<Parameter>| param_models(v@)),
{
    let ghost inp = parser.input();
    let ghost goal = method_params_at(inp, parser.spot(), decl_name@, Seq::empty());
    let mut parameters: Vec<Parameter> = Vec::new();
    proof {
        assert(param_models(parameters@) =~= Seq::<ParamModel>::empty());
        reveal_strlit("self");
    }
    loop
        invariant_except_break
            method_params_at(inp, parser.spot(), decl_name@, param_models(parameters@)) == goal,
        invariant
            advanced(*old(parser), *parser),
            parser.input() == inp,
            inp == old(parser).input(),
            goal == method_params_at(inp, old(parser).spot(), decl_name@, Seq::empty()),
        ensures
            advanced(*old(parser), *parser),
            goal == Parsed::Done(param_models(parameters@), parser.spot()),
        decreases parser.measure(),
    {
        let ghost sp = parser.spot();
        match cur_name(parser) {
            Some(name) => {
                parser.advance()?;
                let is_self = text_eq(name.as_str(), "self");
                if is_self && !parser.check(&Token::Colon) {
                    let location = parser.current_location();
                    let struct_type = Type::Struct(StructType {
                        name: String::from_str(decl_name),
                        type_args: Vec::new(),
                        location,
                    });
                    proof {
                        assert(models(Seq::<Type>::empty()) =~= Seq::<TypeModel>::empty());
                        assert(struct_type.model() == TypeModel::Struct(decl_name@, Seq::empty(), location));
                    }
                    let param_type = Type::Pointer(PointerType {
                        pointee_type: Box::new(struct_type),
                        mutable: true,
                        reference_counted: false,
                        location,
                    });
                    let p = Parameter { name: String::from_str("self"), param_type, default_value: None, location };
                    proof {
                        lemma_param_models_push(parameters@, p);
                        assert(param_model(p) == self_param(decl_name@, location));
                    }
                    parameters.push(p);
                } else if !is_self {
                    let param_type = match parse_type(parser)? {
                        Some(t) => t,
                        None => {
                            let loc = parser.current_location();
                            return Err(CompilerError::syntax(loc.line, loc.column, "Expected parameter type after parameter name"));
                        },
                    };
                    let location = parser.current_location();
                    let p = Parameter { name, param_type, default_value: None, location };
                    proof {
                        lemma_param_models_push(parameters@, p);
                    }
                    parameters.push(p);
                }
            },
            None => {
                break;
            },
        }
        proof {
            assert(smaller(inp, parser.spot(), sp));
        }
        if !parser.consume(&Token::Comma)? {
            parser.expect(&Token::RightParen)?;
            break;
        }
    }
    Ok(parameters)
}

/// Parse the statements of a method body, after its `{`, with the `}` that closes it.
#[verifier::rlimit(30)]
fn parse_method_body(parser: &mut Parser) -> (res: Result<Block>)
    requires
        old(parser).wf(),
    ensures
        advanced(*old(parser), *final(parser)),
        gives_stmt(res, *final(parser), method_body_rest_at(old(parser).input(), old(parser).spot(), Seq::empty()),
            |b: Block| (stmt_models(b.statements@), b.location)),
{
    let ghost inp = parser.input();
    let ghost goal = method_body_rest_at(inp, parser.spot(), Seq::empty());
    let mut statements: Vec<Statement> = Vec::new();
    proof {
        lemma_stmt_models_push(statements@, Statement::Empty);
    }
    loop
        invariant_except_break
            goal is Open || method_body_rest_at(inp, parser.spot(), stmt_models(statements@)) == goal,
        invariant
            advanced(*old(parser), *parser),
            parser.input() == inp,
            inp == old(parser).input(),
            goal == method_body_rest_at(inp, old(parser).spot(), Seq::empty()),
        ensures
            advanced(*old(parser), *parser),
            goal is Open || goal == StmtParse::Done((stmt_models(statements@), location_of(parser.cur())), parser.spot()),
        decreases parser.measure(),
    {
        let ghost sb = parser.spot();
        if parser.consume(&Token::RightBrace)? {
            break;
        }
        if parser.is_at_end() {
            let loc = parser.current_location();
            return Err(CompilerError::syntax(loc.line, loc.column, "Expected '}' to close function body"));
        }
        match parse_statement(parser)? {
            Some(stmt) => {
                proof {
                    lemma_stmt_models_push(statements@, stmt);
                    assert(smaller(inp, parser.spot(), sb));
                }
                statements.push(stmt);
            },
            None => {
                let loc = parser.current_location();
                return Err(CompilerError::syntax(loc.line, loc.column, "Expected '}' to close function body"));
            },
        }
    }
    let location = parser.current_location();
    Ok(Block { statements, location })
}

/// Parse a method within an impl block; a `self` parameter without a type is a pointer to
/// the implementing type.
#[verifier::rlimit(100)]
fn parse_impl_method(parser: &mut Parser, decl_name: &str) -> (res: Result<FunctionDecl>)
    requires
        old(parser).wf(),
    ensures
        advanced(*old(parser), *final(parser)),
        res is Ok ==> final(parser).measure() < old(parser).measure(),
        old(parser).cur_kind() != Some(TokenKind::Fn) ==> res is Err && *final(parser) == *old(parser),
        gives_stmt(res, *final(parser), method_at(old(parser).input(), old(parser).spot(), decl_name@), |d: FunctionDecl| fn_model(d)),
{
    let ghost inp = parser.input();
    let ghost s0 = parser.spot();
    parser.expect(&Token::Fn)?;
    let method_name: String = match parser.current_kind() {
        Some(TokenKind::Identifier) => {
            let name = match cur_name(parser) {
                Some(n) => n,
                None => String::new(),
            };
            parser.advance()?;
            name
        },
        Some(TokenKind::New) => {
            parser.advance()?;
            String::from_str("new")
        },
        _ => {
            let loc = parser.current_location();
            return Err(CompilerError::syntax(loc.line, loc.column, "Expected method name after 'fn'"));
        },
    };
    parser.expect(&Token::LeftParen)?;
    let parameters = if parser.consume(&Token::RightParen)? {
        Vec::new()
    } else {
        parse_method_params(parser, decl_name)?
    };
    let ghost s5 = parser.spot();
    proof {
        assert(param_models(Seq::<Parameter>::empty()) =~= Seq::<ParamModel>::empty());
    }
    let arrow = parser.consume(&Token::Arrow)?;
    let colon = if arrow {
        false
    } else {
        parser.consume(&Token::Colon)?
    };
    let return_type = if arrow || colon {
        parse_type(parser)?
    } else if !parser.check(&Token::LeftBrace) {
        parse_type(parser)?
    } else {
        None
    };
    let ghost s6 = parser.spot();
    proof {
        assert(method_return_at(inp, s5) == TypeParse::Parsed(opt_type_model(return_type), s6));
        assert(method_at(inp, s0, decl_name@) == method_rest(inp, method_name@, Parsed::Done(param_models(parameters@), s5)));
    }
    let body = if parser.consume(&Token::LeftBrace)? {
        Some(parse_method_body(parser)?)
    } else {
        None
    };
    let location = parser.current_location();
    Ok(FunctionDecl {
        name: method_name,
        generics: Vec::new(),
        parameters,
        return_type,
        body,
        attributes: Vec::new(),
        location,
    })
}

/// Parse struct declaration
pub fn parse_struct_declaration(parser: &mut Parser) -> (res: Result<StructDecl>)
    requires
        old(parser).wf(),
    ensures
        advanced(*old(parser), *final(parser)),
        res is Ok ==> final(parser).measure() < old(parser).measure(),
        old(parser).cur_kind() != Some(TokenKind::Struct) ==> res is Err && *final(parser) == *old(parser),
        match struct_decl_head_at(old(parser).input(), old(parser).spot()) {
            Parsed::Failed(f) => res is Err && fails_with(res->Err_0, f),
            Parsed::Done(m, s1) => if kind_of(s1.current) != Some(TokenKind::Fn) {
                res matches Ok(d) && struct_model(d) == m && final(parser).spot() == s1
            } else {
                res matches Ok(d) ==> struct_model(d).name == m.name && struct_model(d).generics == m.generics
                    && struct_model(d).fields == m.fields
            },
        },
{
    let ghost inp = parser.input();
    parser.expect(&Token::Struct)?;
    let struct_name = match cur_name(parser) {
        Some(name) => name,
        None => {
            let loc = parser.current_location();
            return Err(CompilerError::syntax(loc.line, loc.column, "Expected struct name after 'struct'"));
        },
    };
    parser.advance()?;
    let generics = if parser.consume(&Token::Less)? {
        parse_generic_params(parser)?
    } else {
        Vec::new()
    };
    proof {
        assert(generic_models(Seq::<GenericParam>::empty()) =~= Seq::<GenericModel>::empty());
    }
    parser.expect(&Token::LeftBrace)?;
    let fields = parse_struct_fields(parser)?;
    let ghost s4 = parser.spot();
    let ghost head = StructModel {
        name: struct_name@,
        generics: generic_models(generics@),
        fields: field_models(fields@),
        method_count: 0,
        location: location_of(s4.current),
    };
    assert(struct_decl_head_at(inp, old(parser).spot()) == Parsed::Done(head, s4));
    let mut methods: Vec<FunctionDecl> = Vec::new();
    loop
        invariant
            advanced(*old(parser), *parser),
            old(parser).cur_kind() == Some(TokenKind::Struct),
            parser.measure() < old(parser).measure(),
            inp == old(parser).input(),
            struct_decl_head_at(inp, old(parser).spot()) == Parsed::Done(head, s4),
            kind_of(s4.current) != Some(TokenKind::Fn) ==> parser.spot() == s4 && methods@.len() == 0,
        decreases parser.measure(),
    {
        if !parser.check(&Token::Fn) {
            break;
        }
        let current_pos = current_token(parser);
        parser.advance()?;
        if parser.check(&Token::LeftParen) {
            match parse_method_declaration(parser)? {
                Some(method) => {
                    methods.push(method);
                },
                None => {
                    parser.set_current(current_pos);
                    break;
                },
            }
        } else {
            parser.set_current(current_pos);
            break;
        }
    }
    let location = parser.current_location();
    Ok(StructDecl { name: struct_name, generics, fields, methods, location })
}

/// Parse interface declaration
pub fn parse_interface_declaration(parser: &mut Parser) -> (res: Result<InterfaceDecl>)
    requires
        old(parser).wf(),
    ensures
        advanced(*old(parser), *final(parser)),
        res is Ok ==> final(parser).measure() < old(parser).measure(),
        old(parser).cur_kind() != Some(TokenKind::Interface) ==> res is Err && *final(parser) == *old(parser),
        gives(res, *final(parser), interface_decl_at(old(parser).input(), old(parser).spot()),
            |d: InterfaceDecl| interface_model(d)),
{
    let ghost inp = parser.input();
    let ghost s0 = parser.spot();
    parser.expect(&Token::Interface)?;
    let interface_name = match cur_name(parser) {
        Some(name) => name,
        None => {
            let loc = parser.current_location();
            return Err(CompilerError::syntax(loc.line, loc.column, "Expected interface name after 'interface'"));
        },
    };
    parser.advance()?;
    let generics = if parser.consume(&Token::Less)? {
        parse_generic_params(parser)?
    } else {
        let generics: Vec<GenericParam> = Vec::new();
        proof {
            assert(generic_models(generics@) =~= Seq::<GenericModel>::empty());
        }
        generics
    };
    parser.expect(&Token::LeftBrace)?;
    let ghost goal = interface_methods_at(inp, parser.spot(), Seq::empty());
    let ghost gms = generic_models(generics@);
    let mut methods: Vec<InterfaceMethod> = Vec::new();
    proof {
        assert(method_sig_models(methods@) =~= Seq::<MethodSigModel>::empty());
        assert(interface_decl_at(inp, s0) == interface_close(inp, interface_name@, gms, goal));
    }
    loop
        invariant_except_break
            interface_methods_at(inp, parser.spot(), method_sig_models(methods@)) == goal,
        invariant
            advanced(*old(parser), *parser),
            parser.input() == inp,
            inp == old(parser).input(),
            s0 == old(parser).spot(),
            interface_decl_at(inp, s0) == interface_close(inp, interface_name@, gms, goal),
            old(parser).cur_kind() == Some(TokenKind::Interface),
            parser.measure() < old(parser).measure(),
        ensures
            advanced(*old(parser), *parser),
            parser.measure() < old(parser).measure(),
            goal == Parsed::<Seq<MethodSigModel>>::Done(method_sig_models(methods@), parser.spot()),
        decreases parser.measure(),
    {
        if parser.check(&Token::RightBrace) {
            break;
        }
        match parse_interface_method(parser)? {
            Some(method) => {
                proof {
                    lemma_method_sig_models_push(methods@, method);
                }
                methods.push(method);
            },
            None => {
                break;
            },
        }
    }
    parser.expect(&Token::RightBrace)?;
    let location = parser.current_location();
    Ok(InterfaceDecl { name: interface_name, generics, methods, location })
}

/// Parse import declaration: `import a.b`, `import a.b as c`, or `from a.b import x, y`
pub fn parse_import_declaration(parser: &mut Parser) -> (res: Result<ImportDecl>)
    requires
        old(parser).wf(),
    ensures
        advanced(*old(parser), *final(parser)),
        res is Ok ==> final(parser).measure() < old(parser).measure(),
        old(parser).cur_kind() != Some(TokenKind::From) && old(parser).cur_kind() != Some(TokenKind::Import)
            ==> res is Err && *final(parser) == *old(parser),
        res matches Ok(d) ==> (d.items is Some <==> old(parser).cur_kind() == Some(TokenKind::From)),
        gives(res, *final(parser), import_decl_at(old(parser).input(), old(parser).spot()),
            |d: ImportDecl| import_model(d)),
{
    let ghost inp = parser.input();
    let ghost s0 = parser.spot();
    if parser.consume(&Token::From)? {
        let import_path = parse_module_path(parser)?;
        parser.expect(&Token::Import)?;
        let ghost goal = import_items_at(inp, parser.spot(), Seq::empty());
        let ghost path_text = import_path@;
        let mut items: Vec<String> = Vec::new();
        proof {
            assert(texts(items@) =~= Seq::<Seq<char>>::empty());
            assert(import_decl_at(inp, s0) == from_import_close(inp, path_text, goal));
        }
        loop
            invariant_except_break
                import_items_at(inp, parser.spot(), texts(items@)) == goal,
            invariant
                advanced(*old(parser), *parser),
                parser.input() == inp,
                inp == old(parser).input(),
                s0 == old(parser).spot(),
                import_decl_at(inp, s0) == from_import_close(inp, path_text, goal),
                parser.measure() < old(parser).measure(),
                old(parser).cur_kind() == Some(TokenKind::From),
            ensures
                advanced(*old(parser), *parser),
                parser.measure() < old(parser).measure(),
                goal == Parsed::<Seq<Seq<char>>>::Done(texts(items@), parser.spot()),
            decreases parser.measure(),
        {
            let ghost sb = parser.spot();
            match cur_name(parser) {
                Some(name) => {
                    parser.advance()?;
                    proof {
                        assert(texts(items@.push(name)) =~= texts(items@).push(name@));
                    }
                    items.push(name);
                    if !parser.consume(&Token::Comma)? {
                        break;
                    }
                    proof {
                        assert(smaller(inp, parser.spot(), sb));
                    }
                },
                None => {
                    break;
                },
            }
        }
        parser.consume(&Token::Semicolon)?;
        let location = parser.current_location();
        Ok(ImportDecl { path: import_path, items: Some(items), alias: None, location })
    } else {
        parser.expect(&Token::Import)?;
        let import_path = parse_module_path(parser)?;
        let alias = if parser.consume(&Token::As)? {
            match cur_name(parser) {
                Some(alias) => {
                    parser.advance()?;
                    Some(alias)
                },
                None => {
                    let loc = parser.current_location();
                    return Err(CompilerError::syntax(loc.line, loc.column, "Expected alias name after 'as'"));
                },
            }
        } else {
            None
        };
        parser.consume(&Token::Semicolon)?;
        let location = parser.current_location();
        Ok(ImportDecl { path: import_path, items: None, alias, location })
    }
}

/// Parse module path (e.g., "std.fmt", "xx.yy"); a `.` followed by `import` ends it.
fn parse_module_path(parser: &mut Parser) -> (res: Result<String>)
    requires
        old(parser).wf(),
    ensures
        advanced(*old(parser), *final(parser)),
        res is Ok ==> final(parser).measure() < old(parser).measure(),
        res matches Ok(path) ==> cur_name_spec(*old(parser)) is Some
            && cur_name_spec(*old(parser))->0@.is_prefix_of(path@),
        gives(res, *final(parser), module_path_at(old(parser).input(), old(parser).spot()), |p: String| p@),
{
    let ghost inp = parser.input();
    let ghost s0 = parser.spot();
    let mut path_parts: Vec<String> = Vec::new();
    match cur_name(parser) {
        Some(name) => {
            parser.advance()?;
            path_parts.push(name);
        },
        None => {
            let loc = parser.current_location();
            return Err(CompilerError::syntax(loc.line, loc.column, "Expected module name"));
        },
    }
    let ghost first = path_parts@[0];
    let ghost goal = path_rest_at(inp, parser.spot(), texts(path_parts@));
    proof {
        assert(texts(path_parts@) =~= seq![first@]);
    }
    while parser.consume(&Token::Dot)?
        invariant
            advanced(*old(parser), *parser),
            parser.input() == inp,
            inp == old(parser).input(),
            s0 == old(parser).spot(),
            parser.measure() < old(parser).measure(),
            path_parts@.len() >= 1,
            path_parts@[0] == first,
            cur_name_spec(*old(parser)) == Some(first),
            path_rest_at(inp, parser.spot(), texts(path_parts@)) == goal,
            module_path_at(inp, s0) == match goal {
                Parsed::Failed(f) => Parsed::Failed(f),
                Parsed::Done(parts, s1) => Parsed::Done(crate::text::joined(parts, "."@), s1),
            },
        decreases parser.measure(),
    {
        let ghost sb = parser.spot();
        if parser.check(&Token::Import) {
            let path = join(&path_parts, ".");
            proof {
                lemma_joined_prefix(path_parts@.map_values(|s: String| s@), "."@);
            }
            return Ok(path);
        }
        match cur_name(parser) {
            Some(name) => {
                parser.advance()?;
                proof {
                    assert(texts(path_parts@.push(name)) =~= texts(path_parts@).push(name@));
                }
                path_parts.push(name);
            },
            None => {
                let loc = parser.current_location();
                return Err(CompilerError::syntax(loc.line, loc.column, "Expected module name after '.'"));
            },
        }
    }
    let path = join(&path_parts, ".");
    proof {
        lemma_joined_prefix(path_parts@.map_values(|s: String| s@), "."@);
    }
    Ok(path)
}

/// The name the current token carries, if it is an identifier.
pub open spec fn cur_name_spec(p: Parser) -> Option<String> {
    super::cur_identifier(p)
}

/// The first part of a join is a prefix of it.
proof fn lemma_joined_prefix(parts: Seq<Seq<char>>, sep: Seq<char>)
    requires
        parts.len() >= 1,
    ensures
        parts[0].is_prefix_of(crate::text::joined(parts, sep)),
    decreases parts.len(),
{
    if parts.len() > 1 {
        lemma_joined_prefix(parts.drop_last(), sep);
        let j = crate::text::joined(parts.drop_last(), sep);
        assert(crate::text::joined(parts, sep) == j + sep + parts.last());
        assert(parts.drop_last()[0] == parts[0]);
        assert forall|i: int| 0 <= i < parts[0].len() implies #[trigger] parts[0][i] == crate::text::joined(parts, sep)[i] by {
            assert(parts[0][i] == j[i]);
        }
    }
}

/// A Go-style method after its `fn`: `(`, a receiver name and type, `)`, the method's name,
/// its parameters in parentheses (the receiver first, then `name: Type` parameters), a return
/// type if one starts there, and a body in braces if any.
pub open spec fn method_decl_at(inp: TokenInput, s: Spot) -> StmtParse<FnModel> {
    match expect_at(inp, s, Token::LeftParen) {
        Err(f) => StmtParse::Failed(f),
        Ok(s1) => match cur_identifier_at(s1) {
            None => StmtParse::Failed(Failure::Syntax(location_of(s1.current), "Expected receiver name"@)),
            Some(rn) => if read_fails_at(inp, s1) {
                StmtParse::Failed(lexical_failure(inp))
            } else {
                match type_at(inp, read_at(inp, s1)) {
                    TypeParse::Failed(f) => StmtParse::Failed(f),
                    TypeParse::Parsed(None, s3) => StmtParse::Failed(
                        Failure::Syntax(location_of(s3.current), "Expected receiver type"@)),
                    TypeParse::Parsed(Some(rt), s3) => match expect_at(inp, s3, Token::RightParen) {
                        Err(f) => StmtParse::Failed(f),
                        Ok(s4) => match cur_identifier_at(s4) {
                            None => StmtParse::Failed(Failure::Syntax(location_of(s4.current), "Expected method name"@)),
                            Some(m) => if read_fails_at(inp, s4) {
                                StmtParse::Failed(lexical_failure(inp))
                            } else {
                                let s5 = read_at(inp, s4);
                                method_after_name(inp, m,
                                    ParamModel { name: rn, param_type: rt, has_default: false, location: location_of(s5.current) }, s5)
                            },
                        },
                    },
                }
            },
        },
    }
}

/// A Go-style method named `m` with receiver `recv`, after its name at `s`: its parameters in
/// parentheses, the receiver first, then a return type and a body.
pub open spec fn method_after_name(inp: TokenInput, m: Seq<char>, recv: ParamModel, s: Spot) -> StmtParse<FnModel> {
    match expect_at(inp, s, Token::LeftParen) {
        Err(f) => StmtParse::Failed(f),
        Ok(s6) => match typed_params_at(inp, s6, seq![recv]) {
            Parsed::Failed(f) => StmtParse::Failed(f),
            Parsed::Done(ps, s7) => match expect_at(inp, s7, Token::RightParen) {
                Err(f) => StmtParse::Failed(f),
                Ok(s8) => match type_at(inp, s8) {
                    TypeParse::Failed(f) => StmtParse::Failed(f),
                    TypeParse::Parsed(r, s9) => method_decl_body(inp, m, ps, r, s9),
                },
            },
        },
    }
}

/// A Go-style method named `m` with parameters `ps` and return type `r`, whose body (if any)
/// starts at `s`.
pub open spec fn method_decl_body(inp: TokenInput, m: Seq<char>, ps: Seq<ParamModel>, r: Option<TypeModel>, s: Spot) -> StmtParse<FnModel> {
    match consume_at(inp, s, TokenKind::LeftBrace) {
        Err(f) => StmtParse::Failed(f),
        Ok((false, s1)) => StmtParse::Done(FnModel { name: m, generics: Seq::empty(), params: ps, return_type: r,
            body: None, attribute_count: 0, location: location_of(s1.current) }, s1),
        Ok((true, s1)) => match body_at(inp, s1) {
            StmtParse::Failed(f) => StmtParse::Failed(f),
            StmtParse::Open => StmtParse::Open,
            StmtParse::Done(b, s2) => StmtParse::Done(FnModel { name: m, generics: Seq::empty(), params: ps, return_type: r,
                body: Some(b), attribute_count: 0, location: location_of(s2.current) }, s2),
        },
    }
}

/// The method a Go-style method declaration parsed into.
pub open spec fn method_decl_model(o: Option<FunctionDecl>) -> FnModel {
    match o {
        Some(d) => fn_model(d),
        None => arbitrary(),
    }
}

/// Parse method declaration (Go-style: fn (receiver Type) methodName(params) returnType)
#[verifier::rlimit(100)]
#[verifier::spinoff_prover]
fn parse_method_declaration(parser: &mut Parser) -> (res: Result<Option<FunctionDecl>>)
    requires
        old(parser).wf(),
    ensures
        advanced(*old(parser), *final(parser)),
        res is Ok ==> final(parser).measure() < old(parser).measure() && res matches Ok(Some(_)),
        old(parser).cur_kind() != Some(TokenKind::LeftParen) ==> res is Err && *final(parser) == *old(parser),
        res matches Ok(Some(d)) ==> (d.parameters@.len() >= 1
            && cur_identifier_at(read_at(old(parser).input(), old(parser).spot())) == Some(d.parameters@[0].name@)
            && (type_at(old(parser).input(), read_at(old(parser).input(), read_at(old(parser).input(), old(parser).spot())))
                matches TypeParse::Parsed(Some(t), _) && d.parameters@[0].param_type.model() == t)),
        gives_stmt(res, *final(parser), method_decl_at(old(parser).input(), old(parser).spot()), |o: Option<FunctionDecl>| method_decl_model(o)),
{
    let ghost inp = parser.input();
    let ghost s0 = parser.spot();
    parser.expect(&Token::LeftParen)?;
    let receiver_name = match cur_name(parser) {
        Some(name) => {
            parser.advance()?;
            name
        },
        None => {
            let loc = parser.current_location();
            return Err(CompilerError::syntax(loc.line, loc.column, "Expected receiver name"));
        },
    };
    let receiver_type = match parse_type(parser)? {
        Some(t) => t,
        None => {
            let loc = parser.current_location();
            return Err(CompilerError::syntax(loc.line, loc.column, "Expected receiver type"));
        },
    };
    parser.expect(&Token::RightParen)?;
    let method_name = match cur_name(parser) {
        Some(name) => {
            parser.advance()?;
            name
        },
        None => {
            let loc = parser.current_location();
            return Err(CompilerError::syntax(loc.line, loc.column, "Expected method name"));
        },
    };
    let location = parser.current_location();
    let mut parameters: Vec<Parameter> = Vec::new();
    let receiver = Parameter { name: receiver_name, param_type: receiver_type, default_value: None, location };
    let ghost s5 = parser.spot();
    proof {
        assert(method_decl_at(inp, s0) == method_after_name(inp, method_name@, param_model(receiver), s5));
    }
    proof {
        lemma_param_models_push(parameters@, receiver);
        assert(param_models(parameters@) =~= Seq::<ParamModel>::empty());
    }
    parameters.push(receiver);
    proof {
        assert(param_models(parameters@) =~= seq![param_model(receiver)]);
    }
    parser.expect(&Token::LeftParen)?;
    parse_typed_parameters(parser, &mut parameters)?;
    proof {
        assert(parameters@[0] == parameters@.take(1)[0]);
    }
    parser.expect(&Token::RightParen)?;
    let return_type = parse_type(parser)?;
    proof {
        assert(method_after_name(inp, method_name@, param_model(receiver), s5)
            == method_decl_body(inp, method_name@, param_models(parameters@), opt_type_model(return_type), parser.spot()));
    }
    let body = if parser.consume(&Token::LeftBrace)? {
        Some(parse_block(parser)?)
    } else {
        None
    };
    let location = parser.current_location();
    Ok(Some(FunctionDecl {
        name: method_name,
        generics: Vec::new(),
        parameters,
        return_type,
        body,
        attributes: Vec::new(),
        location,
    }))
}

/// Parse `name: Type` parameters separated by commas, up to, not including, the closing `)`,
/// adding them to `parameters`.
fn parse_typed_parameters(parser: &mut Parser, parameters: &mut Vec<Parameter>) -> (res: Result<()>)
    requires
        old(parser).wf(),
    ensures
        advanced(*old(parser), *final(parser)),
        final(parameters)@.len() >= old(parameters)@.len(),
        final(parameters)@.take(old(parameters)@.len() as int) == old(parameters)@,
        match typed_params_at(old(parser).input(), old(parser).spot(), param_models(old(parameters)@)) {
            Parsed::Failed(f) => res is Err && fails_with(res->Err_0, f),
            Parsed::Done(ps, sp) => res is Ok && final(parser).spot() == sp && param_models(final(parameters)@) == ps,
        },
{
    let ghost inp = parser.input();
    if !parser.check(&Token::RightParen) {
        let ghost goal = typed_param_list_at(inp, parser.spot(), param_models(parameters@));
        loop
            invariant_except_break
                typed_param_list_at(inp, parser.spot(), param_models(parameters@)) == goal,
            invariant
                advanced(*old(parser), *parser),
                parser.input() == inp,
                parameters@.len() >= old(parameters)@.len(),
                parameters@.take(old(parameters)@.len() as int) == old(parameters)@,
                goal == typed_params_at(old(parser).input(), old(parser).spot(), param_models(old(parameters)@)),
            ensures
                advanced(*old(parser), *parser),
                parameters@.len() >= old(parameters)@.len(),
                parameters@.take(old(parameters)@.len() as int) == old(parameters)@,
                goal == Parsed::<Seq<ParamModel>>::Done(param_models(parameters@), parser.spot()),
            decreases parser.measure(),
        {
            let ghost sb = parser.spot();
            match cur_name(parser) {
                Some(name) => {
                    parser.advance()?;
                    parser.expect(&Token::Colon)?;
                    let param_type = match parse_type(parser)? {
                        Some(t) => t,
                        None => {
                            let loc = parser.current_location();
                            return Err(CompilerError::syntax(loc.line, loc.column, "Expected parameter type"));
                        },
                    };
                    let location = parser.current_location();
                    let ghost before = parameters@;
                    let param = Parameter { name, param_type, default_value: None, location };
                    proof {
                        lemma_param_models_push(parameters@, param);
                    }
                    parameters.push(param);
                    proof {
                        assert(parameters@.take(old(parameters)@.len() as int) =~= before.take(old(parameters)@.len() as int));
                    }
                },
                None => {},
            }
            if !parser.consume(&Token::Comma)? {
                break;
            }
            proof {
                assert(smaller(inp, parser.spot(), sb));
            }
        }
    }
    Ok(())
}

/// Parse interface method
fn parse_interface_method(parser: &mut Parser) -> (res: Result<Option<InterfaceMethod>>)
    requires
        old(parser).wf(),
    ensures
        advanced(*old(parser), *final(parser)),
        res matches Ok(Some(_)) ==> final(parser).measure() < old(parser).measure(),
        old(parser).cur_kind() != Some(TokenKind::Identifier) ==> (res matches Ok(None) && *final(parser) == *old(parser)),
        gives(res, *final(parser), interface_method_at(old(parser).input(), old(parser).spot()),
            |m: Option<InterfaceMethod>| match m {
                Some(m) => Some(method_sig_model(m)),
                None => None,
            }),
{
    match cur_name(parser) {
        Some(method_name) => {
            parser.advance()?;
            parser.expect(&Token::LeftParen)?;
            let mut parameters: Vec<Parameter> = Vec::new();
            proof {
                assert(param_models(parameters@) =~= Seq::<ParamModel>::empty());
            }
            parse_typed_parameters(parser, &mut parameters)?;
            parser.expect(&Token::RightParen)?;
            let return_type = if parser.consume(&Token::Arrow)? {
                parse_type(parser)?
            } else {
                None
            };
            parser.expect(&Token::Semicolon)?;
            let location = parser.current_location();
            Ok(Some(InterfaceMethod { name: method_name, parameters, return_type, location }))
        },
        None => Ok(None),
    }
}

/// The parameters of a function, after its `(`: names, each with a type and a default value if
/// any, separated by commas; none when `)` comes at once.
fn parse_function_parameters(parser: &mut Parser) -> (res: Result<Vec<Parameter>>)
    requires
        old(parser).wf(),
    ensures
        advanced(*old(parser), *final(parser)),
        res is Ok ==> final(parser).measure() <= old(parser).measure(),
        match (if old(parser).cur_kind() == Some(TokenKind::RightParen) {
            ParamsParse::Done(Seq::empty(), old(parser).spot())
        } else {
            fn_param_list_at(old(parser).input(), old(parser).spot(), Seq::empty())
        }) {
            ParamsParse::Failed(f) => res is Err && fails_with(res->Err_0, f),
            ParamsParse::Open => true,
            ParamsParse::Done(ps, sp) => res matches Ok(v) && final(parser).spot() == sp && param_models(v@) == ps,
        },
{
    let ghost inp = parser.input();
    let ghost s1 = parser.spot();
    let mut parameters: Vec<Parameter> = Vec::new();
    proof {
        assert(param_models(parameters@) =~= Seq::<ParamModel>::empty());
    }
    let ghost goal = if kind_of(s1.current) == Some(TokenKind::RightParen) {
        ParamsParse::Done(Seq::empty(), s1)
    } else {
        fn_param_list_at(inp, s1, Seq::empty())
    };
    if !parser.check(&Token::RightParen) {
        loop
            invariant_except_break
                goal is Open || fn_param_list_at(inp, parser.spot(), param_models(parameters@)) == goal,
            invariant
                advanced(*old(parser), *parser),
                parser.input() == inp,
                inp == old(parser).input(),
                s1 == old(parser).spot(),
                goal == fn_param_list_at(inp, s1, Seq::empty()),
                old(parser).cur_kind() != Some(TokenKind::RightParen),
            ensures
                advanced(*old(parser), *parser),
                goal is Open || goal == ParamsParse::Done(param_models(parameters@), parser.spot()),
            decreases parser.measure(),
        {
            let ghost sb = parser.spot();
            match cur_name(parser) {
                Some(name) => {
                    parser.advance()?;
                    let param_type = match parse_type(parser)? {
                        Some(t) => t,
                        None => {
                            let loc = parser.current_location();
                            return Err(CompilerError::syntax(loc.line, loc.column, "Expected parameter type"));
                        },
                    };
                    let default_value = if parser.consume(&Token::Assign)? {
                        parse_expression(parser)?
                    } else {
                        None
                    };
                    let location = parser.current_location();
                    let param = Parameter { name, param_type, default_value, location };
                    proof {
                        lemma_param_models_push(parameters@, param);
                    }
                    parameters.push(param);
                },
                None => {
                    let loc = parser.current_location();
                    return Err(CompilerError::syntax(loc.line, loc.column, "Expected parameter name"));
                },
            }
            if !parser.consume(&Token::Comma)? {
                break;
            }
            proof {
                assert(smaller(inp, parser.spot(), sb));
            }
        }
    }
    Ok(parameters)
}

/// Parse a block whose `{` was read: statements up to the closing `}`. After a `return`,
/// `break` or `continue` the rest of the block is skipped.
fn parse_block(parser: &mut Parser) -> (res: Result<Block>)
    requires
        old(parser).wf(),
    ensures
        advanced(*old(parser), *final(parser)),
        res is Ok ==> final(parser).measure() < old(parser).measure(),
        res matches Ok(b) ==> forall|i: int| 0 <= i < b.statements@.len() - 1
            ==> !(#[trigger] b.statements@[i] is Return || b.statements@[i] is Break || b.statements@[i] is Continue),
        match body_at(old(parser).input(), old(parser).spot()) {
            StmtParse::Failed(f) => res is Err && fails_with(res->Err_0, f),
            StmtParse::Open => true,
            StmtParse::Done(m, sp) => final(parser).spot() == sp && (res matches Ok(b) && (stmt_models(b.statements@), b.location) == m),
        },
{
    let ghost inp = parser.input();
    let ghost goal = body_rest_at(inp, parser.spot(), Seq::empty());
    let mut statements: Vec<Statement> = Vec::new();
    proof {
        lemma_stmt_models_push(statements@, Statement::Empty);
    }
    loop
        invariant_except_break
            goal is Open || body_rest_at(inp, parser.spot(), stmt_models(statements@)) == goal,
            forall|i: int| 0 <= i < statements@.len()
                ==> !(#[trigger] statements@[i] is Return || statements@[i] is Break || statements@[i] is Continue),
        invariant
            advanced(*old(parser), *parser),
            parser.input() == inp,
            inp == old(parser).input(),
            goal == body_rest_at(inp, old(parser).spot(), Seq::empty()),
        ensures
            advanced(*old(parser), *parser),
            parser.input() == inp,
            goal is Open || goal == StmtParse::Done(stmt_models(statements@), parser.spot()),
            forall|i: int| 0 <= i < statements@.len() - 1
                ==> !(#[trigger] statements@[i] is Return || statements@[i] is Break || statements@[i] is Continue),
        decreases parser.measure(),
    {
        if parser.check(&Token::RightBrace) {
            break;
        }
        let ghost sb = parser.spot();
        match parse_statement(parser)? {
            Some(stmt) => {
                proof {
                    lemma_stmt_models_push(statements@, stmt);
                }
                let ghost sm = stmt.model();
                let ghost s1 = parser.spot();
                let is_terminating = match &stmt {
                    Statement::Return(_) | Statement::Break(_) | Statement::Continue(_) => true,
                    _ => false,
                };
                statements.push(stmt);
                proof {
                    assert(is_terminating == terminates(sm));
                }
                if is_terminating {
                    while !parser.check(&Token::RightBrace) && !parser.is_at_end()
                        invariant
                            advanced(*old(parser), *parser),
                            parser.input() == inp,
                            goal == body_rest_at(inp, old(parser).spot(), Seq::empty()),
                            goal is Open || (match skip_to_close_at(inp, parser.spot()) {
                                Err(f) => goal == StmtParse::<Seq<StmtModel>>::Failed(f),
                                Ok(s2) => goal == StmtParse::Done(stmt_models(statements@), s2),
                            }),
                        decreases parser.measure(),
                    {
                        let ghost sk = parser.spot();
                        parser.advance()?;
                        proof {
                            assert(smaller(inp, parser.spot(), sk));
                        }
                    }
                    break;
                }
            },
            None => {
                break;
            },
        }
        proof {
            assert(smaller(inp, parser.spot(), sb));
        }
    }
    parser.expect(&Token::RightBrace)?;
    let location = parser.current_location();
    Ok(Block { statements, location })
}

/// Parse attributes: `@name` or `@name(args)`, any number of them
fn parse_attributes(parser: &mut Parser) -> (res: Result<Vec<Attribute>>)
    requires
        old(parser).wf(),
    ensures
        advanced(*old(parser), *final(parser)),
        old(parser).cur_kind() != Some(TokenKind::At) ==> (res matches Ok(v) && v@.len() == 0 && *final(parser) == *old(parser)),
{
    let mut attributes: Vec<Attribute> = Vec::new();
    while parser.consume(&Token::At)?
        invariant
            advanced(*old(parser), *parser),
            old(parser).cur_kind() != Some(TokenKind::At) ==> attributes@.len() == 0 && *parser == *old(parser),
        decreases parser.measure(),
    {
        match cur_name(parser) {
            Some(name) => {
                parser.advance()?;
                let arguments = if parser.consume(&Token::LeftParen)? {
                    let args = parse_expression_list(parser, &Token::RightParen)?;
                    parser.expect(&Token::RightParen)?;
                    args
                } else {
                    Vec::new()
                };
                let location = parser.current_location();
                attributes.push(Attribute { name, arguments, location });
            },
            None => {},
        }
    }
    Ok(attributes)
}

} // verus!
