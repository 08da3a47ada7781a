//! Abstract Syntax Tree (AST) definitions for Nature language
use vstd::prelude::*;

pub mod types;
pub mod expr;
pub mod stmt;
pub mod decl;
mod clone;

pub use types::{Type, BasicType, ArrayType, MapType, TupleType, StructType, InterfaceType, FunctionType, PointerType, SliceType, ChannelType, ChannelDirection, OptionalType, ErrorType, UnionType, AliasType, Parameter, TypeContext, basic_name, join_types, with_args, binding_names, lemma_bind_then_get};
pub use expr::{Expression, Literal, CallExpr, MethodCallExpr, BinaryExpr, BinaryOp, UnaryExpr, UnaryOp, ConditionalExpr, ArrayExpr, MapExpr, MapEntry, TupleExpr, StructExpr, FieldInit, FieldAccessExpr, IndexAccessExpr, CastExpr, AssertExpr, LambdaExpr, MatchExpr, MatchArm, Pattern, StructPattern, FieldPattern, BlockExpr, IfExpr, ForExpr, WhileExpr, TryExpr, CatchHandler, SelectExpr, SelectCase, GoExpr, NewExpr};
pub use stmt::{Statement, VariableDeclStmt, ConstantDeclStmt, AssignmentStmt, AssignmentTarget, FieldAccessTarget, IndexAccessTarget, AssignmentOp, IfStmt, ForStmt, WhileStmt, MatchStmt, MatchArmStmt, ReturnStmt, BreakStmt, ContinueStmt, TryStmt, CatchHandlerStmt, ThrowStmt, SelectStmt, SelectCaseStmt, GoStmt, BlockStmt, ExportStmt, ExportItem, DeferStmt};
pub use decl::{Declaration, FunctionDecl, GenericParam, VariableDecl, ConstantDecl, TypeDecl, StructDecl, InterfaceDecl, InterfaceMethod, ImportDecl, ImplDecl, Attribute, has_attribute, first_named, field_names, function_names, interface_method_names, any_attribute_named};

use crate::error::Location;

verus! {

/// A complete Nature program
#[derive(Debug)]
pub struct Program {
    /// List of declarations in the program
    pub declarations: Vec<Declaration>,
    /// Source file information
    pub source_info: SourceInfo,
}

/// Source file information
#[derive(Debug)]
pub struct SourceInfo {
    /// File path
    pub file_path: Option<String>,
    /// Source code content
    pub source_code: String,
}

/// Struct field
#[derive(Debug)]
pub struct StructField {
    /// Field name
    pub name: String,
    /// Field type
    pub field_type: Type,
    /// Default value (if any)
    pub default_value: Option<Expression>,
    /// Go-style field tag (if any)
    pub field_tag: Option<String>,
    /// Location in source
    pub location: Location,
}

/// Block of statements
#[derive(Debug)]
pub struct Block {
    /// Statements in the block
    pub statements: Vec<Statement>,
    /// Location in source
    pub location: Location,
}

/// The function declarations among `decls`, in order.
pub open spec fn functions_of(decls: Seq<Declaration>) -> Seq<FunctionDecl>
    decreases decls.len(),
{
    if decls.len() == 0 {
        Seq::empty()
    } else {
        let rest = functions_of(decls.drop_last());
        match decls.last() {
            Declaration::Function(f) => rest.push(f),
            _ => rest,
        }
    }
}

/// The variable declarations among `decls`, in order.
pub open spec fn variables_of(decls: Seq<Declaration>) -> Seq<VariableDecl>
    decreases decls.len(),
{
    if decls.len() == 0 {
        Seq::empty()
    } else {
        let rest = variables_of(decls.drop_last());
        match decls.last() {
            Declaration::Variable(v) => rest.push(v),
            _ => rest,
        }
    }
}

/// The type declarations among `decls`, in order.
pub open spec fn types_of(decls: Seq<Declaration>) -> Seq<TypeDecl>
    decreases decls.len(),
{
    if decls.len() == 0 {
        Seq::empty()
    } else {
        let rest = types_of(decls.drop_last());
        match decls.last() {
            Declaration::Type(t) => rest.push(t),
            _ => rest,
        }
    }
}

/// The struct declarations among `decls`, in order.
pub open spec fn structs_of(decls: Seq<Declaration>) -> Seq<StructDecl>
    decreases decls.len(),
{
    if decls.len() == 0 {
        Seq::empty()
    } else {
        let rest = structs_of(decls.drop_last());
        match decls.last() {
            Declaration::Struct(s) => rest.push(s),
            _ => rest,
        }
    }
}

/// The interface declarations among `decls`, in order.
pub open spec fn interfaces_of(decls: Seq<Declaration>) -> Seq<InterfaceDecl>
    decreases decls.len(),
{
    if decls.len() == 0 {
        Seq::empty()
    } else {
        let rest = interfaces_of(decls.drop_last());
        match decls.last() {
            Declaration::Interface(i) => rest.push(i),
            _ => rest,
        }
    }
}

/// The referenced values of a sequence of references.
pub open spec fn derefs<T>(rs: Seq<&T>) -> Seq<T> {
    rs.map_values(|r: &T| *r)
}

impl Program {
    /// Create a new program
    pub fn new(declarations: Vec<Declaration>, source_info: SourceInfo) -> (res: Self)
        ensures
            res.declarations == declarations,
            res.source_info == source_info,
    {
        Program { declarations, source_info }
    }

    /// Add a declaration to the program
    pub fn add_declaration(&mut self, declaration: Declaration)
        ensures
            final(self).declarations@ == old(self).declarations@.push(declaration),
            final(self).source_info == old(self).source_info,
    {
        self.declarations.push(declaration);
    }

    /// Get all function declarations
    pub fn functions(&self) -> (res: Vec<&FunctionDecl>)
        ensures
            derefs(res@) == functions_of(self.declarations@),
    {
        let mut res: Vec<&FunctionDecl> = Vec::new();
        let mut i: usize = 0;
        while i < self.declarations.len()
            invariant
                i <= self.declarations@.len(),
                derefs(res@) == functions_of(self.declarations@.take(i as int)),
            decreases self.declarations.len() - i,
        {
            assert(self.declarations@.take(i + 1).drop_last() =~= self.declarations@.take(i as int));
            match &self.declarations[i] {
                Declaration::Function(f) => {
                    res.push(f);
                },
                _ => {},
            }
            assert(derefs(res@) =~= functions_of(self.declarations@.take(i + 1)));
            i = i + 1;
        }
        assert(self.declarations@.take(self.declarations@.len() as int) =~= self.declarations@);
        res
    }

    /// Get all variable declarations
    pub fn variables(&self) -> (res: Vec<&VariableDecl>)
        ensures
            derefs(res@) == variables_of(self.declarations@),
    {
        let mut res: Vec<&VariableDecl> = Vec::new();
        let mut i: usize = 0;
        while i < self.declarations.len()
            invariant
                i <= self.declarations@.len(),
                derefs(res@) == variables_of(self.declarations@.take(i as int)),
            decreases self.declarations.len() - i,
        {
            assert(self.declarations@.take(i + 1).drop_last() =~= self.declarations@.take(i as int));
            match &self.declarations[i] {
                Declaration::Variable(v) => {
                    res.push(v);
                },
                _ => {},
            }
            assert(derefs(res@) =~= variables_of(self.declarations@.take(i + 1)));
            i = i + 1;
        }
        assert(self.declarations@.take(self.declarations@.len() as int) =~= self.declarations@);
        res
    }

    /// Get all type declarations
    pub fn types(&self) -> (res: Vec<&TypeDecl>)
        ensures
            derefs(res@) == types_of(self.declarations@),
    {
        let mut res: Vec<&TypeDecl> = Vec::new();
        let mut i: usize = 0;
        while i < self.declarations.len()
            invariant
                i <= self.declarations@.len(),
                derefs(res@) == types_of(self.declarations@.take(i as int)),
            decreases self.declarations.len() - i,
        {
            assert(self.declarations@.take(i + 1).drop_last() =~= self.declarations@.take(i as int));
            match &self.declarations[i] {
                Declaration::Type(t) => {
                    res.push(t);
                },
                _ => {},
            }
            assert(derefs(res@) =~= types_of(self.declarations@.take(i + 1)));
            i = i + 1;
        }
        assert(self.declarations@.take(self.declarations@.len() as int) =~= self.declarations@);
        res
    }

    /// Get all struct declarations
    pub fn structs(&self) -> (res: Vec<&StructDecl>)
        ensures
            derefs(res@) == structs_of(self.declarations@),
    {
        let mut res: Vec<&StructDecl> = Vec::new();
        let mut i: usize = 0;
        while i < self.declarations.len()
            invariant
                i <= self.declarations@.len(),
                derefs(res@) == structs_of(self.declarations@.take(i as int)),
            decreases self.declarations.len() - i,
        {
            assert(self.declarations@.take(i + 1).drop_last() =~= self.declarations@.take(i as int));
            match &self.declarations[i] {
                Declaration::Struct(s) => {
                    res.push(s);
                },
                _ => {},
            }
            assert(derefs(res@) =~= structs_of(self.declarations@.take(i + 1)));
            i = i + 1;
        }
        assert(self.declarations@.take(self.declarations@.len() as int) =~= self.declarations@);
        res
    }

    /// Get all interface declarations
    pub fn interfaces(&self) -> (res: Vec<&InterfaceDecl>)
        ensures
            derefs(res@) == interfaces_of(self.declarations@),
    {
        let mut res: Vec<&InterfaceDecl> = Vec::new();
        let mut i: usize = 0;
        while i < self.declarations.len()
            invariant
                i <= self.declarations@.len(),
                derefs(res@) == interfaces_of(self.declarations@.take(i as int)),
            decreases self.declarations.len() - i,
        {
            assert(self.declarations@.take(i + 1).drop_last() =~= self.declarations@.take(i as int));
            match &self.declarations[i] {
                Declaration::Interface(d) => {
                    res.push(d);
                },
                _ => {},
            }
            assert(derefs(res@) =~= interfaces_of(self.declarations@.take(i + 1)));
            i = i + 1;
        }
        assert(self.declarations@.take(self.declarations@.len() as int) =~= self.declarations@);
        res
    }
}

} // verus!
