use nrc::ast::{BasicType, Declaration, Expression, Literal, Pattern, Statement, Type};
use nrc::error::CompilerError;
use nrc::lexer::token::Token;
use nrc::parser::{parse_expression, parse_statement, parse_type, Parser};

#[test]
fn test_parser_creation() {
    let source = "fn main() { return 42; }".to_string();
    let parser = Parser::new(source, Some("test.n".to_string()));
    assert!(parser.peek().is_none());
}

#[test]
fn test_parser_advance() {
    let source = "fn main()".to_string();
    let mut parser = Parser::new(source, None);
    parser.advance().unwrap();

    assert!(parser.peek().is_some());
    assert_eq!(parser.peek().unwrap().token, Token::Fn);
}

#[test]
fn test_parser_check() {
    let source = "fn main()".to_string();
    let mut parser = Parser::new(source, None);
    parser.advance().unwrap();

    assert!(parser.check(&Token::Fn));
    assert!(!parser.check(&Token::Var));
}

#[test]
fn test_parser_consume() {
    let source = "fn main()".to_string();
    let mut parser = Parser::new(source, None);
    parser.advance().unwrap();

    assert!(parser.consume(&Token::Fn).unwrap());
    assert!(!parser.consume(&Token::Var).unwrap());
}

#[test]
fn test_parse_variable_declaration() {
    let source = "var x: int = 42;".to_string();
    let mut parser = Parser::new(source, None);
    parser.advance().unwrap();

    let stmt = parse_statement(&mut parser).unwrap();
    assert!(matches!(stmt, Some(Statement::VariableDecl(_))));
}

#[test]
fn test_parse_return_statement() {
    let source = "return 42;".to_string();
    let mut parser = Parser::new(source, None);
    parser.advance().unwrap();

    let stmt = parse_statement(&mut parser).unwrap();
    assert!(matches!(stmt, Some(Statement::Return(_))));
}

#[test]
fn test_parse_if_statement() {
    let source = "if x > 0 { return 1; } else { return 0; }".to_string();
    let mut parser = Parser::new(source, None);
    parser.advance().unwrap();

    let stmt = parse_statement(&mut parser).unwrap();
    assert!(matches!(stmt, Some(Statement::If(_))));
}

#[test]
fn test_parse_for_statement() {
    let source = "for i in [1, 2, 3] { print(i); }".to_string();
    let mut parser = Parser::new(source, None);
    parser.advance().unwrap();

    let stmt = parse_statement(&mut parser).unwrap();
    assert!(matches!(stmt, Some(Statement::For(_))));
}

#[test]
fn test_parse_basic_type() {
    let source = "int".to_string();
    let mut parser = Parser::new(source, None);
    parser.advance().unwrap();

    let ty = parse_type(&mut parser).unwrap();
    assert!(matches!(ty, Some(Type::Basic(BasicType::Int))));
}

#[test]
fn test_parse_pointer_type() {
    let source = "int*".to_string();
    let mut parser = Parser::new(source, None);
    parser.advance().unwrap();

    let ty = parse_type(&mut parser).unwrap();
    assert!(matches!(ty, Some(Type::Pointer(_))));
}

#[test]
fn test_parse_array_type() {
    let source = "[int]".to_string();
    let mut parser = Parser::new(source, None);
    parser.advance().unwrap();

    let ty = parse_type(&mut parser).unwrap();
    assert!(matches!(ty, Some(Type::Array(_))));
}

#[test]
fn test_parse_function_type() {
    let source = "fn(int, string) -> bool".to_string();
    let mut parser = Parser::new(source, None);
    parser.advance().unwrap();

    let ty = parse_type(&mut parser).unwrap();
    assert!(matches!(ty, Some(Type::Function(_))));
}

#[test]
fn test_parse_optional_type() {
    let source = "int?".to_string();
    let mut parser = Parser::new(source, None);
    parser.advance().unwrap();

    let ty = parse_type(&mut parser).unwrap();
    assert!(matches!(ty, Some(Type::Optional(_))));
}

#[test]
fn test_parse_union_type() {
    let source = "int | string | bool".to_string();
    let mut parser = Parser::new(source, None);
    parser.advance().unwrap();

    let ty = parse_type(&mut parser).unwrap();
    assert!(matches!(ty, Some(Type::Union(_))));
}

#[test]
fn expect_reports_what_it_found() {
    let mut parser = Parser::new("fn main()".to_string(), None);
    parser.advance().unwrap();
    let err = parser.expect(&Token::Var).unwrap_err();
    match err {
        CompilerError::Syntax { line, column, message } => {
            assert_eq!(line, 1);
            assert_eq!(column, 1);
            assert_eq!(message, "Expected Var, found Some(Fn)");
        }
        other => panic!("expected a syntax error, got {:?}", other),
    }
}

#[test]
fn multiplication_binds_tighter_than_addition() {
    let mut parser = Parser::new("1 + 2 * 3".to_string(), None);
    parser.advance().unwrap();
    let expr = parse_expression(&mut parser).unwrap().unwrap();
    match expr {
        Expression::Binary(b) => {
            assert!(matches!(*b.left, Expression::Literal(_)));
            assert!(matches!(*b.right, Expression::Binary(_)));
        }
        other => panic!("expected a binary expression, got {:?}", other),
    }
}

#[test]
fn parse_program_collects_declarations() {
    let mut parser =
        Parser::new("fn main() { return 0; } var y = 2; const x = 1;".to_string(), Some("m.n".to_string()));
    let program = parser.parse_program().unwrap();
    assert_eq!(program.declarations.len(), 2);
    assert!(matches!(program.declarations[0], Declaration::Function(_)));
    assert!(matches!(program.declarations[1], Declaration::Constant(_)));
    assert_eq!(program.source_info.file_path, Some("m.n".to_string()));
}

fn type_of(source: &str) -> Result<Option<Type>, CompilerError> {
    let mut parser = Parser::new(source.to_string(), None);
    parser.advance().unwrap();
    parse_type(&mut parser)
}

#[test]
fn tuple_types_by_member_count() {
    assert!(matches!(type_of("()").unwrap(), Some(Type::Basic(BasicType::Void))));
    assert!(matches!(type_of("(int)").unwrap(), Some(Type::Basic(BasicType::Int))));
    match type_of("(int, bool)").unwrap() {
        Some(Type::Tuple(t)) => {
            assert_eq!(t.element_types.len(), 2);
            assert!(matches!(t.element_types[0], Type::Basic(BasicType::Int)));
            assert!(matches!(t.element_types[1], Type::Basic(BasicType::Bool)));
        }
        other => panic!("expected a tuple type, got {:?}", other),
    }
}

#[test]
fn map_type_has_key_and_value() {
    match type_of("map<string, int>").unwrap() {
        Some(Type::MapOf(m)) => {
            assert!(matches!(*m.key_type, Type::Basic(BasicType::String)));
            assert!(matches!(*m.value_type, Type::Basic(BasicType::Int)));
        }
        other => panic!("expected a map type, got {:?}", other),
    }
}

#[test]
fn named_types_generic_alias_and_struct() {
    match type_of("Foo").unwrap() {
        Some(Type::Generic(name)) => assert_eq!(name, "Foo"),
        other => panic!("expected a generic type, got {:?}", other),
    }
    match type_of("Foo<int, bool>").unwrap() {
        Some(Type::Alias(a)) => {
            assert_eq!(a.name, "Foo");
            assert_eq!(a.type_args.len(), 2);
        }
        other => panic!("expected an alias type, got {:?}", other),
    }
    match type_of("Point {").unwrap() {
        Some(Type::Struct(s)) => {
            assert_eq!(s.name, "Point");
            assert!(s.type_args.is_empty());
            assert_eq!((s.location.line, s.location.column), (1, 7));
        }
        other => panic!("expected a struct type, got {:?}", other),
    }
}

#[test]
fn array_type_with_size() {
    match type_of("[int, 4]").unwrap() {
        Some(Type::Array(a)) => {
            assert!(matches!(*a.element_type, Type::Basic(BasicType::Int)));
            assert_eq!(a.size, Some(4));
        }
        other => panic!("expected an array type, got {:?}", other),
    }
}

#[test]
fn type_errors_name_place_and_cause() {
    match type_of("map<int int>") {
        Err(CompilerError::Syntax { line, column, message }) => {
            assert_eq!((line, column), (1, 9));
            assert_eq!(message, "Expected Comma, found Some(Int)");
        }
        other => panic!("expected a syntax error, got {:?}", other),
    }
    match type_of("int |") {
        Err(CompilerError::Syntax { line, column, message }) => {
            assert_eq!((line, column), (0, 0));
            assert_eq!(message, "Expected type after '|'");
        }
        other => panic!("expected a syntax error, got {:?}", other),
    }
    assert!(type_of("42").unwrap().is_none());
}

fn declaration_of(source: &str) -> Result<Option<Declaration>, CompilerError> {
    let mut parser = Parser::new(source.to_string(), None);
    parser.advance().unwrap();
    parser.parse_declaration()
}

#[test]
fn type_declaration_names_a_type() {
    match declaration_of("type Id = int;").unwrap() {
        Some(Declaration::Type(t)) => {
            assert_eq!(t.name, "Id");
            assert!(matches!(t.type_def, Type::Basic(BasicType::Int)));
        }
        other => panic!("expected a type declaration, got {:?}", other),
    }
    match declaration_of("type Id = ;") {
        Err(CompilerError::Syntax { line, column, message }) => {
            assert_eq!((line, column), (1, 11));
            assert_eq!(message, "Expected type definition after '='");
        }
        other => panic!("expected a syntax error, got {:?}", other),
    }
}

#[test]
fn go_style_struct_with_generics_fields_and_tags() {
    match declaration_of("type Box struct<T, U: Show + Eq> { v T w int `\"json\"` }").unwrap() {
        Some(Declaration::Type(t)) => {
            assert_eq!(t.name, "Box");
            match t.type_def {
                Type::Struct(s) => {
                    assert_eq!(s.name, "Box");
                    assert!(s.type_args.is_empty());
                }
                other => panic!("expected a struct type, got {:?}", other),
            }
        }
        other => panic!("expected a type declaration, got {:?}", other),
    }
    let mut parser = Parser::new("type Box struct<T, U: Show + Eq> { v T w int `\"json\"` }".to_string(), None);
    parser.advance().unwrap();
    let decl = nrc::parser::parse_go_style_struct_declaration(&mut parser).unwrap();
    assert_eq!(decl.name, "Box");
    assert_eq!(decl.generics.len(), 2);
    assert_eq!(decl.generics[0].name, "T");
    assert!(decl.generics[0].constraints.is_empty());
    assert_eq!(decl.generics[1].name, "U");
    assert_eq!(decl.generics[1].constraints.len(), 2);
    assert_eq!(decl.fields.len(), 2);
    assert_eq!(decl.fields[0].name, "v");
    assert!(matches!(&decl.fields[0].field_type, Type::Generic(n) if n == "T"));
    assert_eq!(decl.fields[0].field_tag, None);
    assert_eq!(decl.fields[1].name, "w");
    assert_eq!(decl.fields[1].field_tag, Some("json".to_string()));
    assert!(decl.methods.is_empty());
}

#[test]
fn interface_declaration_lists_method_signatures() {
    match declaration_of("interface Shape { area() -> int; scale(by: int, twice: bool); }").unwrap() {
        Some(Declaration::Interface(i)) => {
            assert_eq!(i.name, "Shape");
            assert_eq!(i.methods.len(), 2);
            assert_eq!(i.methods[0].name, "area");
            assert!(i.methods[0].parameters.is_empty());
            assert!(matches!(i.methods[0].return_type, Some(Type::Basic(BasicType::Int))));
            assert_eq!(i.methods[1].name, "scale");
            assert_eq!(i.methods[1].parameters.len(), 2);
            assert_eq!(i.methods[1].parameters[1].name, "twice");
            assert!(matches!(i.methods[1].parameters[1].param_type, Type::Basic(BasicType::Bool)));
            assert!(i.methods[1].return_type.is_none());
        }
        other => panic!("expected an interface declaration, got {:?}", other),
    }
    match declaration_of("interface Shape { area(x) -> int; }") {
        Err(CompilerError::Syntax { message, .. }) => {
            assert_eq!(message, "Expected Colon, found Some(RightParen)");
        }
        other => panic!("expected a syntax error, got {:?}", other),
    }
}

#[test]
fn import_declarations_with_path_alias_and_items() {
    match declaration_of("import std.fmt as f;").unwrap() {
        Some(Declaration::Import(i)) => {
            assert_eq!(i.path, "std.fmt");
            assert_eq!(i.alias, Some("f".to_string()));
            assert!(i.items.is_none());
        }
        other => panic!("expected an import declaration, got {:?}", other),
    }
    let mut parser = Parser::new("from a.b import x, y".to_string(), None);
    parser.advance().unwrap();
    let decl = nrc::parser::parse_import_declaration(&mut parser).unwrap();
    assert_eq!(decl.path, "a.b");
    assert_eq!(decl.items, Some(vec!["x".to_string(), "y".to_string()]));
    assert!(decl.alias.is_none());
    match declaration_of("import a. ;") {
        Err(CompilerError::Syntax { line, column, message }) => {
            assert_eq!((line, column), (1, 11));
            assert_eq!(message, "Expected module name after '.'");
        }
        other => panic!("expected a syntax error, got {:?}", other),
    }
}

#[test]
fn break_and_continue_take_an_optional_label() {
    let mut parser = Parser::new("break outer;".to_string(), None);
    parser.advance().unwrap();
    let b = nrc::parser::parse_break_statement(&mut parser).unwrap();
    assert_eq!(b.label, Some("outer".to_string()));
    let mut parser = Parser::new("continue;".to_string(), None);
    parser.advance().unwrap();
    let c = nrc::parser::parse_continue_statement(&mut parser).unwrap();
    assert!(c.label.is_none());
    let mut parser = Parser::new("break outer".to_string(), None);
    parser.advance().unwrap();
    match nrc::parser::parse_break_statement(&mut parser) {
        Err(CompilerError::Syntax { message, .. }) => assert_eq!(message, "Expected Semicolon, found None"),
        other => panic!("expected a syntax error, got {:?}", other),
    }
}

#[test]
fn export_statement_lists_names() {
    let mut parser = Parser::new("export { area, scale }".to_string(), None);
    parser.advance().unwrap();
    let e = nrc::parser::parse_export_statement(&mut parser).unwrap();
    let names: Vec<String> = e
        .items
        .iter()
        .map(|i| match i {
            nrc::ast::ExportItem::Function(n) => n.clone(),
        })
        .collect();
    assert_eq!(names, vec!["area".to_string(), "scale".to_string()]);
    let mut parser = Parser::new("export 1".to_string(), None);
    parser.advance().unwrap();
    match nrc::parser::parse_export_statement(&mut parser) {
        Err(CompilerError::Syntax { message, .. }) => assert_eq!(message, "Expected export items"),
        other => panic!("expected a syntax error, got {:?}", other),
    }
}

#[test]
fn match_arms_take_alternatives_and_tuple_patterns() {
    let source = "match (x) { 1 | 2 -> return 1; (a, _) -> return 2; y -> return 3; }".to_string();
    let mut parser = Parser::new(source, None);
    parser.advance().unwrap();

    let stmt = parse_statement(&mut parser).unwrap();
    match stmt {
        Some(Statement::Match(m)) => {
            assert_eq!(m.arms.len(), 3);
            match &m.arms[0].pattern {
                Pattern::Or(ps) => {
                    assert_eq!(ps.len(), 2);
                    assert!(matches!(ps[0], Pattern::Literal(Literal::Integer(1))));
                    assert!(matches!(ps[1], Pattern::Literal(Literal::Integer(2))));
                },
                _ => panic!("expected an or-pattern"),
            }
            match &m.arms[1].pattern {
                Pattern::Tuple(ps) => {
                    assert_eq!(ps.len(), 2);
                    assert!(matches!(&ps[0], Pattern::Variable(n) if n == "a"));
                    assert!(matches!(ps[1], Pattern::Wildcard));
                },
                _ => panic!("expected a tuple pattern"),
            }
            assert!(matches!(&m.arms[2].pattern, Pattern::Variable(n) if n == "y"));
        },
        _ => panic!("expected a match statement"),
    }
}

#[test]
fn alternative_without_pattern_is_a_syntax_error() {
    let source = "match (x) { 1 | -> return 1; }".to_string();
    let mut parser = Parser::new(source, None);
    parser.advance().unwrap();

    match parse_statement(&mut parser) {
        Err(CompilerError::Syntax { line, column, message }) => {
            assert_eq!(message, "Expected pattern after '|'");
            assert_eq!((line, column), (1, 17));
        },
        _ => panic!("expected a syntax error"),
    }
}

#[test]
fn synchronize_skips_past_semicolon_or_to_a_declaration() {
    let mut parser = Parser::new("x y ; fn main".to_string(), None);
    parser.advance().unwrap();
    parser.synchronize().unwrap();
    assert_eq!(parser.peek().unwrap().token, Token::Fn);

    let mut parser = Parser::new("a b struct S".to_string(), None);
    parser.advance().unwrap();
    parser.synchronize().unwrap();
    assert_eq!(parser.peek().unwrap().token, Token::Struct);

    let mut parser = Parser::new("a b c".to_string(), None);
    parser.advance().unwrap();
    parser.synchronize().unwrap();
    assert!(parser.peek().is_none());
}

#[test]
fn slice_type_in_empty_brackets() {
    match type_of("[]int").unwrap() {
        Some(Type::Slice(s)) => assert!(matches!(*s.element_type, Type::Basic(BasicType::Int))),
        other => panic!("expected a slice type, got {:?}", other),
    }
    match type_of("[]") {
        Err(CompilerError::Syntax { message, .. }) => assert_eq!(message, "Expected element type in slice type"),
        other => panic!("expected a syntax error, got {:?}", other),
    }
    assert!(matches!(type_of("[int]").unwrap(), Some(Type::Array(_))));
}

#[test]
fn program_of_type_and_import_declarations() {
    let mut parser = Parser::new("type Id = int; ; import std.io;".to_string(), None);
    let program = parser.parse_program().unwrap();
    assert_eq!(program.declarations.len(), 2);
    assert!(matches!(program.declarations[0], Declaration::Type(_)));
    assert!(matches!(program.declarations[1], Declaration::Import(_)));
    assert!(parser.is_at_end());
}

#[test]
fn function_signature_without_body() {
    let mut parser = Parser::new("fn add(a int, b int) -> int".to_string(), None);
    parser.advance().unwrap();
    let f = nrc::parser::parse_function_declaration(&mut parser).unwrap();
    assert_eq!(f.name, "add");
    assert!(f.generics.is_empty());
    assert_eq!(f.parameters.len(), 2);
    assert_eq!(f.parameters[0].name, "a");
    assert_eq!(f.parameters[1].name, "b");
    assert!(matches!(f.parameters[0].param_type, Type::Basic(BasicType::Int)));
    assert!(matches!(f.parameters[1].param_type, Type::Basic(BasicType::Int)));
    assert!(matches!(f.return_type, Some(Type::Basic(BasicType::Int))));
    assert!(f.body.is_none());
    assert!(f.attributes.is_empty());
    assert!(parser.is_at_end());
}

#[test]
fn struct_declaration_without_methods() {
    let mut parser = Parser::new("struct Point { x int y int }".to_string(), None);
    parser.advance().unwrap();
    let decl = nrc::parser::parse_struct_declaration(&mut parser).unwrap();
    assert_eq!(decl.name, "Point");
    assert!(decl.generics.is_empty());
    assert_eq!(decl.fields.len(), 2);
    assert_eq!(decl.fields[0].name, "x");
    assert_eq!(decl.fields[1].name, "y");
    assert!(matches!(decl.fields[1].field_type, Type::Basic(BasicType::Int)));
    assert!(decl.methods.is_empty());
    assert!(parser.is_at_end());

    let mut parser = Parser::new("struct { x int }".to_string(), None);
    parser.advance().unwrap();
    match nrc::parser::parse_struct_declaration(&mut parser) {
        Err(CompilerError::Syntax { message, .. }) => assert_eq!(message, "Expected struct name after 'struct'"),
        other => panic!("expected a syntax error, got {:?}", other),
    }
}

fn expression_of(source: &str) -> Expression {
    let mut parser = Parser::new(source.to_string(), None);
    parser.advance().unwrap();
    let e = parse_expression(&mut parser).unwrap().unwrap();
    assert!(parser.is_at_end());
    e
}

#[test]
fn parenthesised_expression_drops_the_parentheses() {
    assert!(matches!(expression_of("(7)"), Expression::Literal(Literal::Integer(7))));
    assert!(matches!(expression_of("42"), Expression::Literal(Literal::Integer(42))));
    assert!(matches!(expression_of("abc"), Expression::Variable(v) if v == "abc"));
}

#[test]
fn calls_and_index_accesses() {
    match expression_of("f(1, 2)") {
        Expression::Call(c) => {
            assert!(matches!(&*c.callee, Expression::Variable(v) if v == "f"));
            assert!(c.type_args.is_empty());
            assert_eq!(c.arguments.len(), 2);
            assert!(matches!(c.arguments[0], Expression::Literal(Literal::Integer(1))));
            assert!(matches!(c.arguments[1], Expression::Literal(Literal::Integer(2))));
        }
        other => panic!("expected a call, got {:?}", other),
    }
    match expression_of("a[0]") {
        Expression::IndexAccess(x) => {
            assert!(matches!(&*x.object, Expression::Variable(v) if v == "a"));
            assert!(matches!(*x.index, Expression::Literal(Literal::Integer(0))));
        }
        other => panic!("expected an index access, got {:?}", other),
    }
}

#[test]
fn precedence_and_left_grouping() {
    match expression_of("1 + 2 * 3") {
        Expression::Binary(b) => {
            assert_eq!(b.operator, nrc::ast::BinaryOp::Add);
            assert!(matches!(*b.left, Expression::Literal(Literal::Integer(1))));
            assert!(matches!(&*b.right, Expression::Binary(r) if r.operator == nrc::ast::BinaryOp::Mul));
        }
        other => panic!("expected a sum, got {:?}", other),
    }
    match expression_of("1 - 2 - 3") {
        Expression::Binary(b) => {
            assert_eq!(b.operator, nrc::ast::BinaryOp::Sub);
            assert!(matches!(&*b.left, Expression::Binary(l) if l.operator == nrc::ast::BinaryOp::Sub));
            assert!(matches!(*b.right, Expression::Literal(Literal::Integer(3))));
        }
        other => panic!("expected a difference, got {:?}", other),
    }
    match expression_of("x = a ? 1 : 2") {
        Expression::Binary(b) => {
            assert_eq!(b.operator, nrc::ast::BinaryOp::Assign);
            assert!(matches!(*b.right, Expression::Conditional(_)));
        }
        other => panic!("expected an assignment, got {:?}", other),
    }
}

fn statement_of(source: &str) -> Statement {
    let mut parser = Parser::new(source.to_string(), None);
    parser.advance().unwrap();
    let s = parse_statement(&mut parser).unwrap().unwrap();
    assert!(parser.is_at_end());
    s
}

#[test]
fn simple_statements_carry_their_parts() {
    match statement_of("var x: int = 42;") {
        Statement::VariableDecl(v) => {
            assert_eq!(v.name, "x");
            assert!(matches!(v.var_type, Some(Type::Basic(BasicType::Int))));
            assert!(matches!(v.initializer, Some(Expression::Literal(Literal::Integer(42)))));
            assert!(v.mutable);
        }
        other => panic!("expected a variable declaration, got {:?}", other),
    }
    match statement_of("return 42;") {
        Statement::Return(r) => assert!(matches!(r.value, Some(Expression::Literal(Literal::Integer(42))))),
        other => panic!("expected a return, got {:?}", other),
    }
    match statement_of("throw e;") {
        Statement::Throw(t) => assert!(matches!(t.exception, Expression::Variable(v) if v == "e")),
        other => panic!("expected a throw, got {:?}", other),
    }
    match statement_of("go f();") {
        Statement::Go(g) => assert!(matches!(&*g.call.callee, Expression::Variable(v) if v == "f")),
        other => panic!("expected a go statement, got {:?}", other),
    }
    match statement_of("x = 1;") {
        Statement::Expression(Expression::Binary(b)) => assert_eq!(b.operator, nrc::ast::BinaryOp::Assign),
        other => panic!("expected an assignment, got {:?}", other),
    }
}

#[test]
fn compound_statements_carry_their_parts() {
    match statement_of("if x > 0 { return 1; } else { return 0; }") {
        Statement::If(i) => {
            assert!(matches!(i.condition, Expression::Binary(_)));
            assert!(matches!(&*i.then_branch, Statement::Block(b) if b.statements.len() == 1));
            assert!(matches!(i.else_branch.as_deref(), Some(Statement::Block(_))));
        }
        other => panic!("expected an if statement, got {:?}", other),
    }
    match statement_of("while i < 3 { i = i + 1; }") {
        Statement::While(w) => assert!(matches!(&*w.body, Statement::Block(b) if b.statements.len() == 1)),
        other => panic!("expected a while statement, got {:?}", other),
    }
    match statement_of("{ var a = 1; a; }") {
        Statement::Block(b) => {
            assert_eq!(b.statements.len(), 2);
            assert!(matches!(b.statements[0], Statement::VariableDecl(_)));
            assert!(matches!(b.statements[1], Statement::Expression(Expression::Variable(_))));
        }
        other => panic!("expected a block, got {:?}", other),
    }
}

#[test]
fn function_with_body_stops_after_return() {
    let mut parser = Parser::new("fn f(a int) -> int { return a; a; }".to_string(), None);
    parser.advance().unwrap();
    let f = nrc::parser::parse_function_declaration(&mut parser).unwrap();
    let body = f.body.unwrap();
    assert_eq!(body.statements.len(), 1);
    assert!(matches!(body.statements[0], Statement::Return(_)));
    assert!(f.attributes.is_empty());
    assert!(parser.is_at_end());
}

#[test]
fn for_const_and_export_statements() {
    match statement_of("for i in [1, 2, 3] { print(i); }") {
        Statement::For(f) => {
            assert_eq!(f.variable, "i");
            assert!(matches!(f.iterable, Expression::Array(_)));
            assert!(matches!(&*f.body, Statement::Block(b) if b.statements.len() == 1));
        }
        other => panic!("expected a for statement, got {:?}", other),
    }
    match statement_of("const n: int = 3;") {
        Statement::ConstantDecl(c) => {
            assert_eq!(c.name, "n");
            assert!(matches!(c.value, Expression::Literal(Literal::Integer(3))));
        }
        other => panic!("expected a constant declaration, got {:?}", other),
    }
}

#[test]
fn try_and_select_statements() {
    match statement_of("try { risky(); } catch e: string { handle(e); } catch catch f: int g();") {
        Statement::Try(t) => {
            assert!(matches!(&*t.try_block, Statement::Block(b) if b.statements.len() == 1));
            assert_eq!(t.catch_handlers.len(), 2);
            assert_eq!(t.catch_handlers[0].variable, "e");
            assert_eq!(t.catch_handlers[1].variable, "f");
        }
        other => panic!("expected a try statement, got {:?}", other),
    }
    match statement_of("select { ch1 -> { a(); }, ch2 -> b();, default -> c(); }") {
        Statement::Select(s) => {
            assert_eq!(s.cases.len(), 2);
            assert!(s.default_case.is_some());
        }
        other => panic!("expected a select statement, got {:?}", other),
    }
    match statement_of("select { }") {
        Statement::Select(s) => {
            assert_eq!(s.cases.len(), 0);
            assert!(s.default_case.is_none());
        }
        other => panic!("expected a select statement, got {:?}", other),
    }
}
