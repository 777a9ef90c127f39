//! Rym: lexer, parser, semantic checks, IR lowering and LoongArch64 code
//! generation for the Rym systems language.
pub mod token;
pub mod text;
pub mod lex_spec;
pub mod lexer;
pub mod ast;
pub mod parser;
pub mod names;
pub mod scope;
pub mod sema_error;
pub mod ownership;
pub mod sema_spec;
pub mod ty_check;
pub mod ir;
pub mod lower_spec;
pub mod lower;
pub mod lower_jumps;
pub mod operators;
pub mod codegen_spec;
pub mod codegen;
pub mod laws;
pub mod ast_model;
pub mod parse_spec;
