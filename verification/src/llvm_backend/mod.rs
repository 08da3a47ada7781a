//! Code generation support
pub mod codegen;
pub mod lowering;
