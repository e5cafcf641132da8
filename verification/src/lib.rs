//! An interpreter for a small BASIC dialect: a parser, a compiler to an
//! intermediate language, and an interpreter for that language, together
//! with the runtime library that interpreted programs call.

pub mod ast;
pub mod builtins;
pub mod error;
pub mod compiler;
pub mod il;
pub mod ops;
pub mod parser;
pub mod impls;
pub mod interpreter;
pub mod value;
pub mod well_formed;
pub mod witness;
pub mod semantics;
pub mod stdlib;
