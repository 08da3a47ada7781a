use nrc::ast::BinaryOp;
use nrc::error::CompilerError;
use nrc::llvm_backend::lowering::{
    binary_instruction, method_call_target, Arith, BinaryInstr, Comparison, MethodTarget, ValueKind,
};

#[test]
fn operators_become_instructions_by_operand_kind() {
    assert_eq!(
        binary_instruction(BinaryOp::Add, ValueKind::Int, ValueKind::Int).unwrap(),
        BinaryInstr::IntArith(Arith::Add)
    );
    assert_eq!(
        binary_instruction(BinaryOp::Div, ValueKind::Float, ValueKind::Float).unwrap(),
        BinaryInstr::FloatArith(Arith::Div)
    );
    assert_eq!(
        binary_instruction(BinaryOp::LessEqual, ValueKind::Int, ValueKind::Int).unwrap(),
        BinaryInstr::IntCompare(Comparison::LessEqual)
    );
    assert_eq!(
        binary_instruction(BinaryOp::NotEqual, ValueKind::Float, ValueKind::Float).unwrap(),
        BinaryInstr::FloatCompare(Comparison::NotEqual)
    );
    assert_eq!(
        binary_instruction(BinaryOp::Assign, ValueKind::Pointer, ValueKind::Int).unwrap(),
        BinaryInstr::Store
    );
}

#[test]
fn mismatched_or_unsupported_operators_are_internal_errors() {
    match binary_instruction(BinaryOp::Sub, ValueKind::Int, ValueKind::Float) {
        Err(CompilerError::Internal { message }) => assert_eq!(message, "Type mismatch in subtraction"),
        other => panic!("expected an internal error, got {:?}", other),
    }
    match binary_instruction(BinaryOp::Greater, ValueKind::Pointer, ValueKind::Pointer) {
        Err(CompilerError::Internal { message }) => assert_eq!(message, "Type mismatch in comparison"),
        other => panic!("expected an internal error, got {:?}", other),
    }
    match binary_instruction(BinaryOp::Mod, ValueKind::Int, ValueKind::Int) {
        Err(CompilerError::Internal { message }) => assert_eq!(message, "Unsupported binary operator"),
        other => panic!("expected an internal error, got {:?}", other),
    }
}

#[test]
fn method_calls_target_the_first_generated_owner() {
    let generated = vec!["Point.norm".to_string(), "Int.norm".to_string(), "helper".to_string()];
    match method_call_target("norm", true, &generated) {
        MethodTarget::Method { function, is_static } => {
            assert_eq!(function, "Point.norm");
            assert!(!is_static);
        }
        other => panic!("expected a method, got {:?}", other),
    }
    match method_call_target("new", true, &vec!["Person.new".to_string()]) {
        MethodTarget::Method { function, is_static } => {
            assert_eq!(function, "Person.new");
            assert!(is_static);
        }
        other => panic!("expected a method, got {:?}", other),
    }
    assert!(matches!(
        method_call_target("helper", false, &generated),
        MethodTarget::Function { is_static: false }
    ));
}
