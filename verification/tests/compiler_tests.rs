use nrc::error::{CompilerError, ErrorContext, Location};
use nrc::llvm_backend::codegen::CodeGen;
use nrc::runtime::RCHeader;
use nrc::semantic::SemanticAnalyzer;
use nrc::{compile, Compiler, CompilerConfig, OptLevel, TargetConfig};

#[test]
fn test_error_creation() {
    let err = CompilerError::lexical(1, 5, "Unexpected character");
    assert!(matches!(err, CompilerError::Lexical { .. }));
}

#[test]
fn test_error_context() {
    let location = Location::new(1, 5, 10);
    let context = ErrorContext::new(location)
        .with_file_path("test.n".to_string())
        .with_suggestion("Try using a different character".to_string());

    assert_eq!(context.location.line, 1);
    assert_eq!(context.location.column, 5);
    assert_eq!(context.file_path, Some("test.n".to_string()));
    assert!(context.suggestion.is_some());
}

#[test]
fn error_text_shows_category_and_position() {
    let err = CompilerError::syntax(3, 7, "Expected RightParen, found None");
    assert_eq!(err.to_string(), "Syntax error at 3:7: Expected RightParen, found None");
}

#[test]
fn test_compiler_creation() {
    let config = CompilerConfig::default();
    let _compiler = Compiler::new(config);
}

#[test]
fn default_config_values() {
    let config = CompilerConfig::default();
    assert_eq!(config.target_arch, "x86_64");
    assert_eq!(config.target_os, "linux");
    assert_eq!(config.opt_level, OptLevel::Basic);
    assert!(!config.debug_info);
    assert_eq!(config.output_dir, "./");
    assert!(config.static_link);
    assert_eq!(config.output_name, "main");
    let compiler = Compiler::new(config);
    assert_eq!(compiler.config().output_name, "main");
}

#[test]
fn go_style_target_linux_amd64() {
    let target = TargetConfig::from_go_style("linux/amd64").unwrap();
    assert_eq!(target.os, "linux");
    assert_eq!(target.arch, "x86_64");
    assert_eq!(target.env, "gnu");
    assert_eq!(target.to_llvm_triple(), "x86_64-gnu-linux");
    assert_eq!(target.get_llc_command(), "llc-15");
    assert_eq!(target.get_linker_command(), "gcc");
}

#[test]
fn go_style_target_windows_arm64() {
    let target = TargetConfig::from_go_style("windows/arm64").unwrap();
    assert_eq!(target.arch, "aarch64");
    assert_eq!(target.env, "msvc");
    assert_eq!(target.to_llvm_triple(), "aarch64-msvc-windows");
    assert_eq!(target.get_linker_command(), "link.exe");
}

#[test]
fn go_style_target_keeps_unknown_arch() {
    let target = TargetConfig::from_go_style("darwin/riscv64").unwrap();
    assert_eq!(target.arch, "riscv64");
    assert_eq!(target.get_linker_command(), "ld64");
    let other = TargetConfig::from_go_style("plan9/mips").unwrap();
    assert_eq!(other.arch, "mips");
    assert_eq!(other.env, "gnu");
    assert_eq!(other.get_linker_command(), "gcc");
}

#[test]
fn go_style_target_rejects_bad_format() {
    for bad in ["linux", "linux/amd64/extra", ""] {
        match TargetConfig::from_go_style(bad) {
            Err(CompilerError::Internal { message }) => {
                assert_eq!(message, format!("Invalid target format: {}", bad));
            }
            other => panic!("expected an internal error, got {:?}", other),
        }
    }
}

#[test]
fn compile_accepts_simple_program() {
    assert!(compile("fn main() { return 42; }").is_ok());
}

#[test]
fn compile_reports_lexical_error_first() {
    match compile("fn main() { $ }") {
        Err(CompilerError::Lexical { line, column, .. }) => {
            assert_eq!((line, column), (1, 13));
        }
        other => panic!("expected a lexical error, got {:?}", other),
    }
}

#[test]
fn front_end_analyzes_program() {
    let compiler = Compiler::new(CompilerConfig::default());
    let program = compiler.front_end("fn main() { var x = 1; return x; }").unwrap();
    assert_eq!(program.declarations.len(), 1);
}

#[test]
fn front_end_rejects_duplicate_declarations() {
    let compiler = Compiler::new(CompilerConfig::default());
    match compiler.front_end("fn f() { } fn f() { }") {
        Err(CompilerError::Semantic { message, .. }) => {
            assert_eq!(message, "Symbol 'f' already declared in current scope");
        }
        other => panic!("expected a semantic error, got {:?}", other),
    }
}

#[test]
fn analyzer_rejects_break_outside_loop() {
    let compiler = Compiler::new(CompilerConfig::default());
    let result = compiler.front_end("fn main() { break; }");
    assert!(matches!(result, Err(CompilerError::Semantic { .. })));
}

#[test]
fn analyzer_adds_locals_to_table() {
    let mut parser = nrc::parser::Parser::new("fn main() { var x = 1; }".to_string(), None);
    let program = parser.parse_program().unwrap();
    let mut analyzer = SemanticAnalyzer::new();
    analyzer.analyze(&program).unwrap();
    assert!(analyzer.symbol_table().lookup_function("main").is_some());
    assert!(analyzer.symbol_table().lookup_variable("x").is_some());
}

#[test]
fn generated_names_count_up() {
    let mut codegen = CodeGen::new();
    assert_eq!(codegen.generate_var_name("tmp"), "tmp.0");
    assert_eq!(codegen.generate_var_name("tmp"), "tmp.1");
    assert_eq!(codegen.generate_var_name("x"), "x.2");
}

#[test]
fn codegen_tracks_function_and_block() {
    let mut codegen = CodeGen::new();
    assert!(codegen.current_function().is_none());
    codegen.set_current_function("main".to_string());
    codegen.set_current_block("entry".to_string());
    assert_eq!(codegen.current_function(), Some(&"main".to_string()));
    assert_eq!(codegen.current_block(), Some(&"entry".to_string()));
    codegen.clear_current_block();
    assert!(codegen.current_block().is_none());
    assert_eq!(codegen.current_function(), Some(&"main".to_string()));
    codegen.clear_current_function();
    assert!(codegen.current_function().is_none());
}

#[test]
fn rc_header_starts_at_one() {
    let header = RCHeader::new();
    assert_eq!(header.ref_count.load(std::sync::atomic::Ordering::SeqCst), 1);
}

fn semantic_message(source: &str) -> String {
    let compiler = Compiler::new(CompilerConfig::default());
    match compiler.front_end(source) {
        Err(CompilerError::Semantic { message, .. }) => message,
        other => panic!("expected a semantic error, got {:?}", other),
    }
}

#[test]
fn scope_analysis_rejects_duplicate_parameters() {
    assert_eq!(
        semantic_message("fn add(a i32, a i32) -> i32 { return a; }"),
        "Variable 'a' already declared in current scope"
    );
}

#[test]
fn scope_analysis_rejects_duplicate_locals() {
    assert_eq!(
        semantic_message("fn main() { var x = 1; var x = 2; }"),
        "Variable 'x' already declared in current scope"
    );
}

#[test]
fn checks_reject_bare_return_in_function_with_result() {
    assert_eq!(semantic_message("fn f() -> i32 { return; }"), "Function expects return value");
}

#[test]
fn checks_accept_break_inside_loop() {
    let compiler = Compiler::new(CompilerConfig::default());
    assert!(compiler.front_end("fn main() { while true { break; } }").is_ok());
}

#[test]
fn checks_accept_function_using_its_parameters() {
    let compiler = Compiler::new(CompilerConfig::default());
    let program = compiler.front_end("fn add(a i32, b i32) -> i32 { return a + b; }").unwrap();
    assert_eq!(program.declarations.len(), 1);
}

#[test]
fn sources_without_tokens_compile() {
    assert!(compile("").is_ok());
    assert!(compile("  // only a comment\n").is_ok());
    let compiler = Compiler::new(CompilerConfig::default());
    match compiler.front_end("") {
        Ok(p) => assert!(p.declarations.is_empty()),
        Err(e) => panic!("expected an empty program, got {:?}", e),
    }
    match compile("#") {
        Err(CompilerError::Lexical { line, column, message }) => {
            assert_eq!((line, column), (1, 1));
            assert_eq!(message, "Unexpected character: '#'");
        }
        other => panic!("expected a lexical error, got {:?}", other),
    }
}
