//! Semantic analysis for Nature language
pub mod symbols;
pub mod nesting;
pub mod symbol_table;
pub mod scope_analyzer;
pub mod semantic_checker;
pub mod name_resolver;
pub mod analyzer;
pub mod module_resolver;

pub use symbols::{Symbol, FunctionSymbol, VariableSymbol, ConstantSymbol, TypeSymbol, StructSymbol, InterfaceSymbol, ImportSymbol};
pub use symbol_table::SymbolTable;
pub use scope_analyzer::{ScopeAnalyzer, Scope, VariableInfo, FunctionInfo, TypeInfo};
pub use semantic_checker::{SemanticChecker, CheckingContext};
pub use name_resolver::{NameResolver, ResolutionContext};
pub use analyzer::SemanticAnalyzer;
pub use module_resolver::{ModuleResolver, Module, ExportInfo, ExportType};
