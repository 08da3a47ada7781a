//! Symbols that the semantic analysis records.
use vstd::prelude::*;
use crate::ast::{FunctionDecl, VariableDecl, ConstantDecl, TypeDecl, StructDecl, InterfaceDecl, ImportDecl};
use crate::error::Location;

verus! {

/// Symbol information
#[derive(Debug)]
pub enum Symbol {
    /// Function symbol
    Function(FunctionSymbol),
    /// Variable symbol
    Variable(VariableSymbol),
    /// Constant symbol
    Constant(ConstantSymbol),
    /// Type symbol
    Type(TypeSymbol),
    /// Struct symbol
    Struct(StructSymbol),
    /// Interface symbol
    Interface(InterfaceSymbol),
    /// Import symbol
    Import(ImportSymbol),
}

/// Function symbol
#[derive(Debug)]
pub struct FunctionSymbol {
    /// Function name
    pub name: String,
    /// Function declaration
    pub declaration: FunctionDecl,
    /// Scope level
    pub scope_level: usize,
    /// Is exported
    pub exported: bool,
}

/// Variable symbol
#[derive(Debug)]
pub struct VariableSymbol {
    /// Variable name
    pub name: String,
    /// Variable declaration
    pub declaration: VariableDecl,
    /// Scope level
    pub scope_level: usize,
    /// Is exported
    pub exported: bool,
}

/// Constant symbol
#[derive(Debug)]
pub struct ConstantSymbol {
    /// Constant name
    pub name: String,
    /// Constant declaration
    pub declaration: ConstantDecl,
    /// Scope level
    pub scope_level: usize,
    /// Is exported
    pub exported: bool,
}

/// Type symbol
#[derive(Debug)]
pub struct TypeSymbol {
    /// Type name
    pub name: String,
    /// Type declaration
    pub declaration: TypeDecl,
    /// Scope level
    pub scope_level: usize,
    /// Is exported
    pub exported: bool,
}

/// Struct symbol
#[derive(Debug)]
pub struct StructSymbol {
    /// Struct name
    pub name: String,
    /// Struct declaration
    pub declaration: StructDecl,
    /// Scope level
    pub scope_level: usize,
    /// Is exported
    pub exported: bool,
}

/// Interface symbol
#[derive(Debug)]
pub struct InterfaceSymbol {
    /// Interface name
    pub name: String,
    /// Interface declaration
    pub declaration: InterfaceDecl,
    /// Scope level
    pub scope_level: usize,
    /// Is exported
    pub exported: bool,
}

/// Import symbol
#[derive(Debug)]
pub struct ImportSymbol {
    /// Import path
    pub path: String,
    /// Import declaration
    pub declaration: ImportDecl,
    /// Scope level
    pub scope_level: usize,
    /// Is exported
    pub exported: bool,
}

impl Symbol {
    /// Where the symbol's declaration stands.
    pub open spec fn spec_location(&self) -> Location {
        match self {
            Symbol::Function(sym) => sym.declaration.location,
            Symbol::Variable(sym) => sym.declaration.location,
            Symbol::Constant(sym) => sym.declaration.location,
            Symbol::Type(sym) => sym.declaration.location,
            Symbol::Struct(sym) => sym.declaration.location,
            Symbol::Interface(sym) => sym.declaration.location,
            Symbol::Import(sym) => sym.declaration.location,
        }
    }

    /// The symbol's name (an import is named by its path).
    pub open spec fn spec_name(&self) -> Seq<char> {
        match self {
            Symbol::Function(sym) => sym.name@,
            Symbol::Variable(sym) => sym.name@,
            Symbol::Constant(sym) => sym.name@,
            Symbol::Type(sym) => sym.name@,
            Symbol::Struct(sym) => sym.name@,
            Symbol::Interface(sym) => sym.name@,
            Symbol::Import(sym) => sym.path@,
        }
    }

    /// The scope level the symbol was declared at.
    pub open spec fn spec_scope_level(&self) -> usize {
        match self {
            Symbol::Function(sym) => sym.scope_level,
            Symbol::Variable(sym) => sym.scope_level,
            Symbol::Constant(sym) => sym.scope_level,
            Symbol::Type(sym) => sym.scope_level,
            Symbol::Struct(sym) => sym.scope_level,
            Symbol::Interface(sym) => sym.scope_level,
            Symbol::Import(sym) => sym.scope_level,
        }
    }

    /// Whether the symbol is exported.
    pub open spec fn spec_is_exported(&self) -> bool {
        match self {
            Symbol::Function(sym) => sym.exported,
            Symbol::Variable(sym) => sym.exported,
            Symbol::Constant(sym) => sym.exported,
            Symbol::Type(sym) => sym.exported,
            Symbol::Struct(sym) => sym.exported,
            Symbol::Interface(sym) => sym.exported,
            Symbol::Import(sym) => sym.exported,
        }
    }

    /// Get the location of the symbol
    pub fn location(&self) -> (res: Location)
        ensures
            res == self.spec_location(),
    {
        match self {
            Symbol::Function(sym) => sym.declaration.location,
            Symbol::Variable(sym) => sym.declaration.location,
            Symbol::Constant(sym) => sym.declaration.location,
            Symbol::Type(sym) => sym.declaration.location,
            Symbol::Struct(sym) => sym.declaration.location,
            Symbol::Interface(sym) => sym.declaration.location,
            Symbol::Import(sym) => sym.declaration.location,
        }
    }

    /// Get the name of the symbol
    pub fn name(&self) -> (res: &str)
        ensures
            res@ == self.spec_name(),
    {
        match self {
            Symbol::Function(sym) => sym.name.as_str(),
            Symbol::Variable(sym) => sym.name.as_str(),
            Symbol::Constant(sym) => sym.name.as_str(),
            Symbol::Type(sym) => sym.name.as_str(),
            Symbol::Struct(sym) => sym.name.as_str(),
            Symbol::Interface(sym) => sym.name.as_str(),
            Symbol::Import(sym) => sym.path.as_str(),
        }
    }

    /// Get the scope level of the symbol
    pub fn scope_level(&self) -> (res: usize)
        ensures
            res == self.spec_scope_level(),
    {
        match self {
            Symbol::Function(sym) => sym.scope_level,
            Symbol::Variable(sym) => sym.scope_level,
            Symbol::Constant(sym) => sym.scope_level,
            Symbol::Type(sym) => sym.scope_level,
            Symbol::Struct(sym) => sym.scope_level,
            Symbol::Interface(sym) => sym.scope_level,
            Symbol::Import(sym) => sym.scope_level,
        }
    }

    /// Check if the symbol is exported
    pub fn is_exported(&self) -> (res: bool)
        ensures
            res == self.spec_is_exported(),
    {
        match self {
            Symbol::Function(sym) => sym.exported,
            Symbol::Variable(sym) => sym.exported,
            Symbol::Constant(sym) => sym.exported,
            Symbol::Type(sym) => sym.exported,
            Symbol::Struct(sym) => sym.exported,
            Symbol::Interface(sym) => sym.exported,
            Symbol::Import(sym) => sym.exported,
        }
    }
}

} // verus!
