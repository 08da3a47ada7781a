use nrc::ast::{
    ArrayType, AssignmentOp, AssignmentStmt, AssignmentTarget, BasicType, BinaryExpr, BinaryOp,
    CallExpr, Declaration, Expression, FunctionDecl, FunctionType, InterfaceDecl, InterfaceMethod,
    Literal, OptionalType, Parameter, PointerType, Program, ReturnStmt, SourceInfo, Statement,
    StructDecl, StructField, Type, TypeContext, VariableDeclStmt,
};
use nrc::error::Location;

#[test]
fn test_basic_types() {
    let int_type = Type::Basic(BasicType::Int);
    let string_type = Type::Basic(BasicType::String);
    let bool_type = Type::Basic(BasicType::Bool);

    assert_eq!(int_type.to_string(), "int");
    assert_eq!(string_type.to_string(), "string");
    assert_eq!(bool_type.to_string(), "bool");
}

#[test]
fn test_array_type() {
    let element_type = Type::Basic(BasicType::Int);
    let location = Location::new(1, 1, 0);
    let array_type = Type::Array(ArrayType {
        element_type: Box::new(element_type),
        size: Some(10),
        location,
    });

    assert_eq!(array_type.to_string(), "[int, 10]");
    assert!(array_type.is_array());
}

#[test]
fn test_pointer_type() {
    let pointee_type = Type::Basic(BasicType::Int);
    let location = Location::new(1, 1, 0);
    let pointer_type = Type::Pointer(PointerType {
        pointee_type: Box::new(pointee_type),
        mutable: true,
        reference_counted: false,
        location,
    });

    assert_eq!(pointer_type.to_string(), "mut *int");
    assert!(pointer_type.is_pointer());
}

#[test]
fn test_function_type() {
    let param_types = vec![Type::Basic(BasicType::Int), Type::Basic(BasicType::String)];
    let return_type = Type::Basic(BasicType::Bool);
    let location = Location::new(1, 1, 0);
    let function_type = Type::Function(FunctionType {
        parameter_types: param_types,
        return_type: Some(Box::new(return_type)),
        variadic: false,
        location,
    });

    assert_eq!(function_type.to_string(), "fn(int, string) -> bool");
    assert!(function_type.is_function());
}

#[test]
fn test_optional_type() {
    let inner_type = Type::Basic(BasicType::Int);
    let location = Location::new(1, 1, 0);
    let optional_type = Type::Optional(OptionalType { inner_type: Box::new(inner_type), location });

    assert_eq!(optional_type.to_string(), "int?");
    assert!(optional_type.is_optional());
}

#[test]
fn test_type_context() {
    let mut context = TypeContext::new();
    context.bind("x".to_string(), Type::Basic(BasicType::Int));
    context.add_generic("T".to_string());

    assert_eq!(context.get("x"), Some(&Type::Basic(BasicType::Int)));
    assert!(context.is_generic("T"));
    assert!(!context.is_generic("U"));
}

#[test]
fn type_context_rebinding_replaces() {
    let mut context = TypeContext::new();
    context.bind("x".to_string(), Type::Basic(BasicType::Int));
    context.bind("x".to_string(), Type::Basic(BasicType::Bool));
    assert_eq!(context.get("x"), Some(&Type::Basic(BasicType::Bool)));
    assert_eq!(context.get("y"), None);
}

#[test]
fn test_function_declaration() {
    let location = Location::new(1, 1, 0);
    let func_decl = FunctionDecl {
        name: "add".to_string(),
        generics: vec![],
        parameters: vec![
            Parameter {
                name: "a".to_string(),
                param_type: Type::Basic(BasicType::Int),
                default_value: None,
                location,
            },
            Parameter {
                name: "b".to_string(),
                param_type: Type::Basic(BasicType::Int),
                default_value: None,
                location,
            },
        ],
        return_type: Some(Type::Basic(BasicType::Int)),
        body: None,
        attributes: vec![],
        location,
    };

    assert_eq!(func_decl.name, "add");
    assert_eq!(func_decl.parameters.len(), 2);
    assert!(!func_decl.is_method());
}

#[test]
fn test_struct_declaration() {
    let location = Location::new(1, 1, 0);
    let field = StructField {
        name: "x".to_string(),
        field_type: Type::Basic(BasicType::Int),
        default_value: None,
        field_tag: None,
        location,
    };

    let struct_decl = StructDecl {
        name: "Point".to_string(),
        generics: vec![],
        fields: vec![field],
        methods: vec![],
        location,
    };

    assert_eq!(struct_decl.name, "Point");
    assert_eq!(struct_decl.fields.len(), 1);
    assert!(struct_decl.has_field("x"));
    assert!(!struct_decl.has_field("y"));
}

#[test]
fn test_interface_declaration() {
    let location = Location::new(1, 1, 0);
    let method = InterfaceMethod {
        name: "area".to_string(),
        parameters: vec![],
        return_type: Some(Type::Basic(BasicType::F64)),
        location,
    };

    let interface_decl = InterfaceDecl {
        name: "Shape".to_string(),
        generics: vec![],
        methods: vec![method],
        location,
    };

    assert_eq!(interface_decl.name, "Shape");
    assert_eq!(interface_decl.methods.len(), 1);
    assert!(interface_decl.has_method("area"));
    assert!(!interface_decl.has_method("perimeter"));
}

#[test]
fn test_declaration_location() {
    let location = Location::new(5, 10, 100);
    let decl = Declaration::Function(FunctionDecl {
        name: "test".to_string(),
        generics: vec![],
        parameters: vec![],
        return_type: None,
        body: None,
        attributes: vec![],
        location,
    });

    assert_eq!(decl.location(), location);
    assert_eq!(decl.name(), "test");
}

#[test]
fn test_literal_expressions() {
    let int_lit = Expression::Literal(Literal::Integer(42));
    let str_lit = Expression::Literal(Literal::String("hello".to_string()));
    let bool_lit = Expression::Literal(Literal::Boolean(true));

    assert!(matches!(int_lit, Expression::Literal(Literal::Integer(42))));
    assert!(matches!(str_lit, Expression::Literal(Literal::String(_))));
    assert!(matches!(bool_lit, Expression::Literal(Literal::Boolean(true))));
}

#[test]
fn test_binary_expression() {
    let left = Expression::Literal(Literal::Integer(10));
    let right = Expression::Literal(Literal::Integer(20));
    let location = Location::new(1, 10, 10);

    let binary = Expression::Binary(BinaryExpr {
        left: Box::new(left),
        operator: BinaryOp::Add,
        right: Box::new(right),
        location,
    });

    assert!(matches!(binary, Expression::Binary(_)));
}

#[test]
fn test_function_call() {
    let callee = Expression::Variable("add".to_string());
    let args = vec![Expression::Literal(Literal::Integer(1)), Expression::Literal(Literal::Integer(2))];
    let location = Location::new(1, 1, 0);

    let call = Expression::Call(CallExpr {
        callee: Box::new(callee),
        type_args: vec![],
        arguments: args,
        location,
    });

    assert!(matches!(call, Expression::Call(_)));
}

#[test]
fn test_program_creation() {
    let source_info = SourceInfo {
        file_path: Some("test.n".to_string()),
        source_code: "fn main() { return 42; }".to_string(),
    };

    let program = Program::new(vec![], source_info);
    assert_eq!(program.declarations.len(), 0);
}

#[test]
fn test_program_functions() {
    let source_info = SourceInfo { file_path: None, source_code: String::new() };

    let func_decl = FunctionDecl {
        name: "main".to_string(),
        generics: vec![],
        parameters: vec![],
        return_type: None,
        body: None,
        attributes: vec![],
        location: Location::new(1, 1, 0),
    };

    let mut program = Program::new(vec![], source_info);
    program.add_declaration(Declaration::Function(func_decl));

    let functions = program.functions();
    assert_eq!(functions.len(), 1);
    assert_eq!(functions[0].name, "main");
}

#[test]
fn test_expression_statement() {
    let expr = Expression::Literal(Literal::Integer(42));
    let stmt = Statement::Expression(expr);

    assert!(matches!(stmt, Statement::Expression(_)));
}

#[test]
fn test_variable_declaration() {
    let location = Location::new(1, 1, 0);
    let stmt = Statement::VariableDecl(VariableDeclStmt {
        name: "x".to_string(),
        var_type: None,
        initializer: Some(Expression::Literal(Literal::Integer(42))),
        mutable: true,
        location,
    });

    assert!(matches!(stmt, Statement::VariableDecl(_)));
}

#[test]
fn test_assignment_statement() {
    let location = Location::new(1, 1, 0);
    let stmt = Statement::Assignment(AssignmentStmt {
        target: AssignmentTarget::Variable("x".to_string()),
        operator: AssignmentOp::Assign,
        value: Expression::Literal(Literal::Integer(42)),
        location,
    });

    assert!(matches!(stmt, Statement::Assignment(_)));
}

#[test]
fn test_return_statement() {
    let location = Location::new(1, 1, 0);
    let stmt = Statement::Return(ReturnStmt {
        value: Some(Expression::Literal(Literal::Integer(42))),
        location,
    });

    assert!(matches!(stmt, Statement::Return(_)));
}

#[test]
fn type_text_ignores_places_and_flags() {
    let make = |line: usize, rc: bool| {
        Type::Pointer(PointerType {
            pointee_type: Box::new(Type::Array(ArrayType {
                element_type: Box::new(Type::Basic(BasicType::Int)),
                size: Some(3),
                location: Location::new(line, 2, 0),
            })),
            mutable: true,
            reference_counted: rc,
            location: Location::new(line, 1, 0),
        })
    };
    assert_eq!(make(1, false).to_string(), make(9, true).to_string());
    assert_eq!(make(1, false).to_string(), "mut *[int, 3]");
}
