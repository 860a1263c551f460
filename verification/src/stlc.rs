//! An unstaged call-by-value lambda calculus: evaluated by an abstract
//! machine with a reified continuation, either directly over terms or after
//! compilation to a tree of instructions.

pub mod ast;
pub mod compiled;
pub mod env;
pub mod eval;
pub mod val;
