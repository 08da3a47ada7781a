use nrc::ast::stmt::{AssignmentTarget, BreakStmt, ContinueStmt, ReturnStmt, ThrowStmt};
use nrc::ast::{BasicType, Expression, FunctionDecl, Literal, StructType, Type, VariableDecl};
use nrc::error::{CompilerError, Location};
use nrc::semantic::{
    FunctionSymbol, NameResolver, ScopeAnalyzer, SemanticAnalyzer, SemanticChecker, Symbol,
    SymbolTable, VariableInfo,
};

fn function(name: &str, line: usize) -> FunctionDecl {
    FunctionDecl {
        name: name.to_string(),
        generics: vec![],
        parameters: vec![],
        return_type: None,
        body: None,
        attributes: vec![],
        location: Location::new(line, 1, 0),
    }
}

#[test]
fn test_symbol_table_creation() {
    let table = SymbolTable::new();
    assert!(table.is_empty());
    assert_eq!(table.current_level(), 0);
}

#[test]
fn symbol_table_test_scope_management() {
    let mut table = SymbolTable::new();

    assert_eq!(table.current_level(), 0);

    table.enter_scope();
    assert_eq!(table.current_level(), 1);

    table.exit_scope();
    assert_eq!(table.current_level(), 0);
}

#[test]
fn test_symbol_insertion() {
    let mut table = SymbolTable::new();
    let func = function("test", 1);

    table.insert_function(&func).unwrap();
    assert!(!table.is_empty());
    assert_eq!(table.current_scope_size(), 1);

    let symbol = table.lookup_function("test");
    assert!(symbol.is_some());
    assert_eq!(symbol.unwrap().name, "test");
}

#[test]
fn test_symbol_lookup() {
    let mut table = SymbolTable::new();
    let func = function("test", 1);

    table.insert_function(&func).unwrap();

    let func_symbol = table.lookup_function("test");
    assert!(func_symbol.is_some());

    let symbol = table.lookup("test");
    assert!(symbol.is_some());

    let non_existent = table.lookup("nonexistent");
    assert!(non_existent.is_none());
}

#[test]
fn test_duplicate_symbol_error() {
    let mut table = SymbolTable::new();
    let func1 = function("test", 1);
    let func2 = function("test", 2);

    table.insert_function(&func1).unwrap();

    let result = table.insert_function(&func2);
    assert!(result.is_err());
}

#[test]
fn duplicate_symbol_error_names_the_symbol() {
    let mut table = SymbolTable::new();
    table.insert_function(&function("f", 1)).unwrap();
    match table.insert_function(&function("f", 7)) {
        Err(CompilerError::Semantic { line, column, message }) => {
            assert_eq!(line, 7);
            assert_eq!(column, 1);
            assert_eq!(message, "Symbol 'f' already declared in current scope");
        }
        other => panic!("expected a semantic error, got {:?}", other),
    }
}

#[test]
fn inner_scope_shadows_and_exit_restores() {
    let mut table = SymbolTable::new();
    table.insert_function(&function("f", 1)).unwrap();
    table.enter_scope();
    table.insert_function(&function("f", 2)).unwrap();
    assert_eq!(table.lookup("f").unwrap().location().line, 2);
    table.exit_scope();
    assert_eq!(table.lookup("f").unwrap().location().line, 1);
}

#[test]
fn exit_scope_at_outermost_level_keeps_table() {
    let mut table = SymbolTable::new();
    table.exit_scope();
    assert_eq!(table.current_level(), 0);
}

#[test]
fn test_scope_analyzer_creation() {
    let analyzer = ScopeAnalyzer::new();
    assert_eq!(analyzer.scopes().len(), 1);
    assert_eq!(analyzer.current_scope().level, 0);
}

#[test]
fn scope_analyzer_test_scope_management() {
    let mut analyzer = ScopeAnalyzer::new();

    assert_eq!(analyzer.current_scope_level(), 0);

    analyzer.enter_scope(Location::new(1, 1, 0));
    assert_eq!(analyzer.current_scope_level(), 1);

    analyzer.exit_scope();
    assert_eq!(analyzer.current_scope_level(), 0);
}

#[test]
fn test_variable_lookup() {
    let mut analyzer = ScopeAnalyzer::new();

    let var_info = VariableInfo {
        name: "x".to_string(),
        var_type: Some(Type::Basic(BasicType::Int)),
        mutable: true,
        location: Location::new(1, 1, 0),
        scope_level: 0,
    };

    analyzer.add_variable("x".to_string(), var_info).unwrap();

    let found = analyzer.lookup_variable("x");
    assert!(found.is_some());
    assert_eq!(found.unwrap().name, "x");

    let not_found = analyzer.lookup_variable("y");
    assert!(not_found.is_none());
}

#[test]
fn test_duplicate_variable_error() {
    let mut analyzer = ScopeAnalyzer::new();

    let var_info1 = VariableInfo {
        name: "x".to_string(),
        var_type: Some(Type::Basic(BasicType::Int)),
        mutable: true,
        location: Location::new(1, 1, 0),
        scope_level: 0,
    };

    let var_info2 = VariableInfo {
        name: "x".to_string(),
        var_type: Some(Type::Basic(BasicType::String)),
        mutable: false,
        location: Location::new(2, 1, 0),
        scope_level: 0,
    };

    analyzer.add_variable("x".to_string(), var_info1).unwrap();

    let result = analyzer.add_variable("x".to_string(), var_info2);
    assert!(result.is_err());
}

#[test]
fn variable_lookup_reaches_enclosing_scope() {
    let mut analyzer = ScopeAnalyzer::new();
    let var_info = VariableInfo {
        name: "x".to_string(),
        var_type: None,
        mutable: false,
        location: Location::new(1, 1, 0),
        scope_level: 0,
    };
    analyzer.add_variable("x".to_string(), var_info).unwrap();
    analyzer.enter_scope(Location::new(2, 1, 0));
    assert!(analyzer.lookup_variable("x").is_some());
    analyzer.exit_scope();
    assert_eq!(analyzer.current_scope_level(), 0);
}

#[test]
fn test_name_resolver_creation() {
    let resolver = NameResolver::new();
    assert_eq!(resolver.context().current_scope, 0);
    assert!(resolver.context().import_aliases.is_empty());
    assert!(resolver.context().generic_params.is_empty());
}

#[test]
fn test_generic_parameter_resolution() {
    let mut resolver = NameResolver::new();
    let symbol_table = SymbolTable::new();

    resolver.add_generic_param("T".to_string());

    let generic_type = Type::Generic("T".to_string());
    let result = resolver.resolve_type(&generic_type, &symbol_table);
    assert!(result.is_ok());
}

#[test]
fn test_undefined_generic_parameter_error() {
    let mut resolver = NameResolver::new();
    let symbol_table = SymbolTable::new();

    let generic_type = Type::Generic("T".to_string());
    let result = resolver.resolve_type(&generic_type, &symbol_table);
    assert!(result.is_err());
}

#[test]
fn test_semantic_checker_creation() {
    let checker = SemanticChecker::new();
    assert!(checker.context().current_function.is_none());
    assert!(checker.context().current_struct.is_none());
    assert!(checker.context().current_interface.is_none());
    assert_eq!(checker.context().loop_depth, 0);
    assert_eq!(checker.context().try_depth, 0);
}

#[test]
fn test_break_statement_outside_loop() {
    let mut checker = SemanticChecker::new();
    let symbol_table = SymbolTable::new();

    let break_stmt = BreakStmt { label: None, location: Location::new(1, 1, 0) };

    let result = checker.check_break_statement(&break_stmt, &symbol_table);
    assert!(result.is_err());
}

#[test]
fn test_continue_statement_outside_loop() {
    let mut checker = SemanticChecker::new();
    let symbol_table = SymbolTable::new();

    let continue_stmt = ContinueStmt { label: None, location: Location::new(1, 1, 0) };

    let result = checker.check_continue_statement(&continue_stmt, &symbol_table);
    assert!(result.is_err());
}

#[test]
fn test_throw_statement_outside_try() {
    let mut checker = SemanticChecker::new();
    let symbol_table = SymbolTable::new();

    let throw_stmt = ThrowStmt {
        exception: Expression::Literal(Literal::String("error".to_string())),
        location: Location::new(1, 1, 0),
    };

    let result = checker.check_throw_statement(&throw_stmt, &symbol_table);
    assert!(result.is_err());
}

#[test]
fn test_return_statement_outside_function() {
    let mut checker = SemanticChecker::new();
    let symbol_table = SymbolTable::new();

    let return_stmt = ReturnStmt { value: None, location: Location::new(1, 1, 0) };

    let result = checker.check_return_statement(&return_stmt, &symbol_table);
    assert!(result.is_err());
}

#[test]
fn break_outside_loop_message() {
    let mut checker = SemanticChecker::new();
    let symbol_table = SymbolTable::new();
    let break_stmt = BreakStmt { label: None, location: Location::new(3, 4, 0) };
    match checker.check_break_statement(&break_stmt, &symbol_table) {
        Err(CompilerError::Semantic { line, column, message }) => {
            assert_eq!((line, column), (3, 4));
            assert_eq!(message, "Break statement outside of loop");
        }
        other => panic!("expected a semantic error, got {:?}", other),
    }
}

#[test]
fn test_semantic_analyzer_creation() {
    let analyzer = SemanticAnalyzer::new();
    assert!(analyzer.symbol_table().is_empty());
}

#[test]
fn test_symbol_creation() {
    let func_sym = FunctionSymbol {
        name: "test".to_string(),
        declaration: function("test", 1),
        scope_level: 0,
        exported: false,
    };

    let symbol = Symbol::Function(func_sym);
    assert_eq!(symbol.name(), "test");
    assert_eq!(symbol.scope_level(), 0);
    assert!(!symbol.is_exported());
}

#[test]
fn assignment_to_immutable_variable_is_rejected() {
    let mut table = SymbolTable::new();
    let fixed = VariableDecl {
        name: "x".to_string(),
        var_type: None,
        initializer: None,
        mutable: false,
        location: Location::new(1, 1, 0),
    };
    let free = VariableDecl {
        name: "y".to_string(),
        var_type: None,
        initializer: None,
        mutable: true,
        location: Location::new(2, 1, 0),
    };
    table.insert_variable(&fixed).unwrap();
    table.insert_variable(&free).unwrap();
    let mut checker = SemanticChecker::new();
    match checker.check_assignment_target(&AssignmentTarget::Variable("x".to_string()), &table) {
        Err(CompilerError::Semantic { line, column, message }) => {
            assert_eq!((line, column), (0, 0));
            assert_eq!(message, "Cannot assign to immutable variable 'x'");
        }
        other => panic!("expected a semantic error, got {:?}", other),
    }
    assert!(checker.check_assignment_target(&AssignmentTarget::Variable("y".to_string()), &table).is_ok());
    assert!(checker.check_assignment_target(&AssignmentTarget::Variable("z".to_string()), &table).is_ok());
}

#[test]
fn type_check_rejects_undeclared_struct() {
    let mut checker = SemanticChecker::new();
    let table = SymbolTable::new();
    let ty = Type::Struct(StructType {
        name: "Point".to_string(),
        type_args: vec![],
        location: Location::new(1, 1, 0),
    });
    match checker.check_type(&ty, &table) {
        Err(CompilerError::Semantic { message, .. }) => {
            assert_eq!(message, "Undefined struct type 'Point'");
        }
        other => panic!("expected a semantic error, got {:?}", other),
    }
    assert!(checker.check_type(&Type::Basic(BasicType::Int), &table).is_ok());
}

#[test]
fn undefined_generic_parameter_message() {
    let mut resolver = NameResolver::new();
    let symbol_table = SymbolTable::new();
    match resolver.resolve_type(&Type::Generic("T".to_string()), &symbol_table) {
        Err(CompilerError::Semantic { line, column, message }) => {
            assert_eq!((line, column), (0, 0));
            assert_eq!(message, "Undefined generic type parameter 'T'");
        }
        other => panic!("expected a semantic error, got {:?}", other),
    }
}
